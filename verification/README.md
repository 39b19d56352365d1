# ec-slimloader

The decision logic of a small secure bootloader for NXP i.MX RT685 parts,
verified with Verus.

- `src/ivt.rs`: reading the image vector table (image length, image type,
  load address) from the first 64 bytes of a signed image.
- `src/boot.rs`: a boot attempt as a state machine. `begin` and `step` say
  what to do next (look a slot up, read its header, copy the image to RAM,
  have the ROM authenticate it) and whether to boot or give up, with the
  reason. The proof functions at the end of the file show that an attempt
  only copies into the allowed load range and only boots an accepted image
  that the ROM authenticated.
- `src/rom.rs`: decoding the status words of the boot ROM's authentication.
- `src/descriptor.rs`: app image descriptors shared with the update process.
- `app/`: the board glue that carries out the requests on the hardware
  (flash reads, the copy, the ROM calls, the jump).
