//! The values that generators produce, the configuration of a generator instance and the
//! interface that generator plugins implement.

use vstd::prelude::*;
use vstd::std_specs::cmp::PartialOrdSpecImpl;
use core::cmp::Ordering;
use crate::text::{chars_of, i32_to_decimal, signed_decimal};

verus! {

/// A value produced by a generator. A float is held by its IEEE 754 bits (`f32::to_bits`).
#[derive(Debug)]
pub enum GenerationResult {
    /// A 32-bit integer.
    Int(i32),
    /// A 32-bit float, by its bits.
    Float(u32),
    /// A text.
    Str(String),
}

/// The mathematical value of a `GenerationResult`.
pub enum GenerationValue {
    Int(i32),
    Float(u32),
    Str(Seq<char>),
}

impl View for GenerationResult {
    type V = GenerationValue;

    open spec fn view(&self) -> GenerationValue {
        match self {
            GenerationResult::Int(i) => GenerationValue::Int(*i),
            GenerationResult::Float(b) => GenerationValue::Float(*b),
            GenerationResult::Str(s) => GenerationValue::Str(s@),
        }
    }
}

/// Whether the bits of an `f32` encode NaN.
pub open spec fn f32_bits_nan(b: u32) -> bool {
    (b & 0x7f80_0000u32) == 0x7f80_0000u32 && (b & 0x007f_ffffu32) != 0
}

/// Whether the bits of an `f32` encode a zero of either sign.
pub open spec fn f32_bits_zero(b: u32) -> bool {
    (b & 0x7fff_ffffu32) == 0
}

/// Float equality on bits, as `f32 == f32` decides it: NaN equals nothing, the two zeros
/// are equal, and other values are equal when their bits are.
pub open spec fn f32_bits_eq(a: u32, b: u32) -> bool {
    !f32_bits_nan(a) && !f32_bits_nan(b) && (a == b || (f32_bits_zero(a) && f32_bits_zero(b)))
}

/// Equality of generated values: same variant, and equal payloads (floats as `f32`s compare).
pub open spec fn values_equal(x: GenerationValue, y: GenerationValue) -> bool {
    match (x, y) {
        (GenerationValue::Int(a), GenerationValue::Int(b)) => a == b,
        (GenerationValue::Float(a), GenerationValue::Float(b)) => f32_bits_eq(a, b),
        (GenerationValue::Str(a), GenerationValue::Str(b)) => a == b,
        _ => false,
    }
}

fn floats_equal(a: u32, b: u32) -> (r: bool)
    ensures
        r == f32_bits_eq(a, b),
{
    let a_nan = (a & 0x7f80_0000u32) == 0x7f80_0000u32 && (a & 0x007f_ffffu32) != 0;
    let b_nan = (b & 0x7f80_0000u32) == 0x7f80_0000u32 && (b & 0x007f_ffffu32) != 0;
    !a_nan && !b_nan && (a == b || ((a & 0x7fff_ffffu32) == 0 && (b & 0x7fff_ffffu32) == 0))
}

impl PartialEq for GenerationResult {
    fn eq(&self, other: &Self) -> (r: bool) {
        match (self, other) {
            (GenerationResult::Int(a), GenerationResult::Int(b)) => *a == *b,
            (GenerationResult::Float(a), GenerationResult::Float(b)) => floats_equal(*a, *b),
            (GenerationResult::Str(a), GenerationResult::Str(b)) => *a == *b,
            _ => false,
        }
    }
}

impl vstd::std_specs::cmp::PartialEqSpecImpl for GenerationResult {
    open spec fn obeys_eq_spec() -> bool {
        true
    }

    open spec fn eq_spec(&self, other: &Self) -> bool {
        values_equal(self@, other@)
    }
}

/// The position of a float on the number line, by its bits: the magnitude bits, negated where
/// the sign bit is set (so both zeros sit at 0). Meaningful for values other than NaN.
pub open spec fn f32_bits_key(b: u32) -> int {
    if b >= 0x8000_0000u32 {
        0 - (b & 0x7fff_ffffu32)
    } else {
        0 + (b & 0x7fff_ffffu32)
    }
}

/// An `i32` as an integer.
pub open spec fn widen_i32(a: i32) -> int {
    a as int
}

/// An `i64` as an integer.
pub open spec fn widen_i64(a: i64) -> int {
    a as int
}

/// A `u8` as an integer.
pub open spec fn widen_u8(a: u8) -> int {
    a as int
}

/// A position in a sequence as an integer.
pub open spec fn position(i: usize) -> int {
    i as int
}

/// The order of two integers.
pub open spec fn int_order(a: int, b: int) -> Ordering {
    if a < b {
        Ordering::Less
    } else if a == b {
        Ordering::Equal
    } else {
        Ordering::Greater
    }
}

/// Float order on bits, as `f32::partial_cmp` decides it: none where either is NaN, otherwise
/// the order of the values.
pub open spec fn f32_bits_order(a: u32, b: u32) -> Option<Ordering> {
    if f32_bits_nan(a) || f32_bits_nan(b) {
        None
    } else {
        Some(int_order(f32_bits_key(a), f32_bits_key(b)))
    }
}

/// Lexicographic order of two texts by their characters, as `String` orders them.
pub open spec fn text_order(a: Seq<char>, b: Seq<char>) -> Ordering
    decreases a.len(),
{
    if a.len() == 0 {
        if b.len() == 0 {
            Ordering::Equal
        } else {
            Ordering::Less
        }
    } else if b.len() == 0 {
        Ordering::Greater
    } else if a[0] < b[0] {
        Ordering::Less
    } else if a[0] > b[0] {
        Ordering::Greater
    } else {
        text_order(a.drop_first(), b.drop_first())
    }
}

/// The rank of a variant: integers before floats before texts.
pub open spec fn variant_rank(v: GenerationValue) -> int {
    match v {
        GenerationValue::Int(_) => 0,
        GenerationValue::Float(_) => 1,
        GenerationValue::Str(_) => 2,
    }
}

/// The order of generated values, as a derived `PartialOrd` gives it: first by variant, then
/// by the payloads (floats as `f32`s compare, texts lexicographically).
pub open spec fn value_order(x: GenerationValue, y: GenerationValue) -> Option<Ordering> {
    match (x, y) {
        (GenerationValue::Int(a), GenerationValue::Int(b)) => Some(int_order(widen_i32(a), widen_i32(b))),
        (GenerationValue::Float(a), GenerationValue::Float(b)) => f32_bits_order(a, b),
        (GenerationValue::Str(a), GenerationValue::Str(b)) => Some(text_order(a, b)),
        _ => Some(int_order(variant_rank(x), variant_rank(y))),
    }
}

/// The position of a float on the number line, as `f32_bits_key` gives it.
fn float_key(b: u32) -> (r: i64)
    ensures
        r == f32_bits_key(b),
{
    if b >= 0x8000_0000u32 {
        0 - ((b & 0x7fff_ffffu32) as i64)
    } else {
        (b & 0x7fff_ffffu32) as i64
    }
}

fn order_keys(a: i64, b: i64) -> (r: Ordering)
    ensures
        r == int_order(widen_i64(a), widen_i64(b)),
{
    if a < b {
        Ordering::Less
    } else if a == b {
        Ordering::Equal
    } else {
        Ordering::Greater
    }
}

fn order_floats(a: u32, b: u32) -> (r: Option<Ordering>)
    ensures
        r == f32_bits_order(a, b),
{
    let a_nan = (a & 0x7f80_0000u32) == 0x7f80_0000u32 && (a & 0x007f_ffffu32) != 0;
    let b_nan = (b & 0x7f80_0000u32) == 0x7f80_0000u32 && (b & 0x007f_ffffu32) != 0;
    if a_nan || b_nan {
        None
    } else {
        Some(order_keys(float_key(a), float_key(b)))
    }
}

fn order_texts(a: &String, b: &String) -> (r: Ordering)
    ensures
        r == text_order(a@, b@),
{
    let x = chars_of(a.as_str());
    let y = chars_of(b.as_str());
    let mut i: usize = 0;
    assert(x@.skip(0) =~= x@);
    assert(y@.skip(0) =~= y@);
    while i < x.len() && i < y.len()
        invariant
            x@ == a@,
            y@ == b@,
            i <= x@.len(),
            i <= y@.len(),
            text_order(a@, b@) == text_order(x@.skip(position(i)), y@.skip(position(i))),
        decreases x@.len() - i,
    {
        if x[i] < y[i] {
            return Ordering::Less;
        }
        if x[i] > y[i] {
            return Ordering::Greater;
        }
        assert(x@.skip(position(i)).drop_first() =~= x@.skip(i + 1));
        assert(y@.skip(position(i)).drop_first() =~= y@.skip(i + 1));
        i = i + 1;
    }
    if i < y.len() {
        Ordering::Less
    } else if i < x.len() {
        Ordering::Greater
    } else {
        Ordering::Equal
    }
}

fn order_i32(a: i32, b: i32) -> (r: Ordering)
    ensures
        r == int_order(widen_i32(a), widen_i32(b)),
{
    if a < b {
        Ordering::Less
    } else if a == b {
        Ordering::Equal
    } else {
        Ordering::Greater
    }
}

fn order_ranks(a: u8, b: u8) -> (r: Ordering)
    ensures
        r == int_order(widen_u8(a), widen_u8(b)),
{
    if a < b {
        Ordering::Less
    } else if a == b {
        Ordering::Equal
    } else {
        Ordering::Greater
    }
}

impl GenerationResult {
    fn rank(&self) -> (r: u8)
        ensures
            r == variant_rank(self@),
    {
        match self {
            GenerationResult::Int(_) => 0,
            GenerationResult::Float(_) => 1,
            GenerationResult::Str(_) => 2,
        }
    }
}

impl PartialOrd for GenerationResult {
    fn partial_cmp(&self, other: &Self) -> (r: Option<Ordering>) {
        match (self, other) {
            (GenerationResult::Int(a), GenerationResult::Int(b)) => Some(order_i32(*a, *b)),
            (GenerationResult::Float(a), GenerationResult::Float(b)) => order_floats(*a, *b),
            (GenerationResult::Str(a), GenerationResult::Str(b)) => Some(order_texts(a, b)),
            _ => Some(order_ranks(self.rank(), other.rank())),
        }
    }
}

impl PartialOrdSpecImpl for GenerationResult {
    open spec fn obeys_partial_cmp_spec() -> bool {
        true
    }

    open spec fn partial_cmp_spec(&self, other: &Self) -> Option<Ordering> {
        value_order(self@, other@)
    }
}

impl Clone for GenerationResult {
    fn clone(&self) -> (r: Self)
        ensures
            r@ == self@,
    {
        match self {
            GenerationResult::Int(i) => GenerationResult::Int(*i),
            GenerationResult::Float(b) => GenerationResult::Float(*b),
            GenerationResult::Str(s) => GenerationResult::Str(s.clone()),
        }
    }
}

impl Default for GenerationResult {
    fn default() -> (r: Self)
        ensures
            r@ == GenerationValue::Str("MOCK"@),
    {
        GenerationResult::Str("MOCK".to_string())
    }
}

impl GenerationResult {
    /// The value that a text stands for: always the text itself.
    pub fn from_text(s: &str) -> (r: GenerationResult)
        ensures
            r@ == GenerationValue::Str(s@),
    {
        GenerationResult::Str(s.to_string())
    }

    /// The text of an integer or a text value, as `Display` writes it; `None` for a float,
    /// whose text is written by float formatting.
    pub fn display_text(&self) -> (r: Option<String>)
        ensures
            match self@ {
                GenerationValue::Int(i) => r matches Some(t) && t@ == signed_decimal(i as int),
                GenerationValue::Float(_) => r is None,
                GenerationValue::Str(s) => r matches Some(t) && t@ == s,
            },
    {
        match self {
            GenerationResult::Int(i) => Some(i32_to_decimal(*i)),
            GenerationResult::Float(_) => None,
            GenerationResult::Str(s) => Some(s.clone()),
        }
    }
}

impl core::str::FromStr for GenerationResult {
    type Err = ();

    fn from_str(s: &str) -> (r: Result<Self, ()>)
        ensures
            r matches Ok(v) && v@ == GenerationValue::Str(s@),
    {
        Ok(GenerationResult::from_text(s))
    }
}

/// The configuration of one generator instance of a sensor.
#[derive(Debug)]
pub struct GeneratorConfig {
    /// The plugin that produces the values.
    pub generator_id: String,
    /// The name of the instance; sensors that name the same instance share it.
    pub instance_id: String,
    /// The arguments that the plugin creates the instance with.
    pub params: Vec<(String, String)>,
}

/// The interface of a value generator.
pub trait GeneratorPlugin {
    /// The next value.
    fn generate(&mut self) -> GenerationResult;
}

/// A generator that always produces the integer 1.
#[derive(Debug)]
pub struct MockGenerator;

impl GeneratorPlugin for MockGenerator {
    fn generate(&mut self) -> (r: GenerationResult)
        ensures
            r@ == GenerationValue::Int(1),
    {
        GenerationResult::Int(1)
    }
}

/// A generator for tests, that always produces the integer 1.
pub fn get_mock_generator() -> (r: MockGenerator) {
    MockGenerator
}

} // verus!
