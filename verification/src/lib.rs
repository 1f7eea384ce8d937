//! Rules and screens of a paper tablet's built-in applications.

pub mod action;
pub mod app_store;
pub mod chess;
pub mod chess_rules;
pub mod damage;
pub mod home;
pub mod render_test_card;
pub mod settings;
pub mod sudoku;
pub mod sudoku_rules;
pub mod text;
