# krun_whpx

The core of a small virtual machine monitor for the Windows Hypervisor
Platform, written in Verus. The library decides; the host layer carries out.

* `src/` is the library. All of it is verified but for the few functions, named
  below, that call into other crates.
  * `vmm/`: the partition, the virtual processors and their exits, the boot
    state of a processor, memory-mapped device registration, the socket device
    configuration and what a boot from the command line is made of.
  * `devices/`: the bus, the interval timer, the interrupt controller, the
    event handling of the entropy device and the in-process network backend.
  * `polly/`: subscribers and the events they wait for.
  * `utils/`: wait objects, event counters and clocks.
  * `text`, `bytes`: rendering of numbers, and numbers as bytes.
* `tests/` runs the library on concrete values.
* `app/` is the host layer: hypervisor calls, event objects, threads, sockets.

What the library asks of the host comes out as a value (an action, a request,
a list of registers), and what the host found goes in as one. Calls that the
library makes itself go through a few functions whose contracts are stated and
not proved: access to guest memory (`vmm/guest_memory.rs`), the channels for
frames (`devices/net/channel.rs`) and the description of a guest memory error
(`vmm/error.rs`).
