//! Verified logic of the fine-scale measurement board: the command frames of the
//! MCP45HVX1 digital rheostat that sets the amplifier gain, the gain that a wiper
//! position gives, the conversion of STM32 ADC samples to millivolts, and the
//! autoscaling decisions that keep a bridge reading inside its window.
pub mod rheo;
pub mod adc;
pub mod autoscale;
