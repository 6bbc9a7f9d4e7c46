pub mod ui;
