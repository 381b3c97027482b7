# IoT simulator

A simulator of hierarchies of IoT devices and sensors. A simulation file describes a tree
of devices; every sensor produces values from a generator plugin at a fixed sampling rate
between a start and an end instant, and every value goes to the output plugins.

`src/` is the library, verified with Verus:

- `offset`, `datetime`, `clock`: the instants of a simulation file (`Now`, RFC 3339,
  offsets such as `-1d12h`, `Never`), as nanoseconds since the epoch;
- `registry`: which plugins the settings offer and which generator and output instances
  exist; one instance id always names one shared instance;
- `plan`, `emitter`: the emitters of the device tree, and the pacing of each (history at
  once, live values waited for);
- `generator`, `output`, `model`, `config`, `args`, `ids`, `text`: the data model, plugin
  arguments, identifiers and text;
- `constant`, `faker`, `sma`, `stdout`, `typed`: the plugins that come with the simulator.

`app/` is the command line program: settings and simulation files, plugin loading, the
asynchronous run, float arithmetic and printing.
