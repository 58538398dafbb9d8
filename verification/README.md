# mfs_rust

Firmware logic of a fine-scale measurement board (STM32G0): a strain-gauge bridge
read through an instrumentation amplifier whose gain is set by an MCP45HVX1 digital
rheostat on I2C.

- `src/` is the library, verified with Verus:
  - `rheo`: the rheostat's command bytes and frames for wiper 0, what a read reply
    holds, and the amplifier gain at a wiper position as an exact fraction, with the
    laws that the gain falls as the wiper rises and stays between 10 and 1335.
  - `adc`: the ADC's oversampling settings and the full-scale reading they give, and
    the conversion of samples to millivolts against the internal reference.
  - `autoscale`: the decision, after each reading, to step the wiper down, up, or
    stop, so that the reading ends inside the window 8000..=50000.
- `app/` is the board program around it (embassy): the I2C and ADC drivers that
  perform the transactions the library describes, and the autoscaling loop.
- `tests/` runs the library on concrete values.
