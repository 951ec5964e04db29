[package]
name = "sudoku_board"
version = "0.1.0"
edition = "2021"

[dependencies]
pancurses = "0.17"
