//! Per-version packet modules.
pub mod classic;
pub mod fields;
pub mod v1_11_x;
pub mod v1_12_2;
pub mod v1_12_x;
pub mod v1_13_x;
pub mod v1_16_5;
pub mod v1_16_x;
pub mod v1_18_x;
pub mod v1_19_x;
pub mod v1_20_x;
pub mod v1_21;
pub mod v1_21_x;
pub mod v1_6_x;
pub mod v1_7_10;
pub mod v1_7_x;
