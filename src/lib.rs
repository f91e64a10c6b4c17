//! Firmware core of a battery-powered toy blaster: the trigger-driven motor
//! controller, the interrupt-shared peripheral cell and an SSD1306 OLED
//! driver.
pub mod rev_motors;
pub mod shared_cell;
pub mod ssd1306;
