pub mod color;
pub mod msi;
pub mod z390;
pub mod z390_device;
pub mod animation;
pub mod rtx2080;
pub mod sk621;
