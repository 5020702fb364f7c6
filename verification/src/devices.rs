pub mod soundcore;
