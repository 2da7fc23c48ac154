pub mod rom;
