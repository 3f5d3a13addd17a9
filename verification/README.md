# arm_fvp_base_pac

Peripheral access for the Arm Fixed Virtual Platform (Base platform FVPs), written in Verus.

- `src/` is the verified library: the power-on reason and system status decodings of the FVP
  power controller (with a flags type for the SYS status register), the register values that
  name a processor or cluster and that enable or disable wakeups, the decoding of the system
  identification of the FVP system peripheral, the system configuration commands, the memory
  map and the peripheral base addresses, and the rule by which the peripherals are handed out
  once.
- `app/` holds what performs the MMIO accesses: the register maps, the drivers that read and
  write them through `safe-mmio`, and the `Peripherals` structure with its lock.
- `tests/` runs the library on concrete values.
