pub mod atr;
