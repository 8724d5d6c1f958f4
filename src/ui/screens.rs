pub mod menu;
pub mod practice;
pub mod tutorial;
pub mod tutorial_prompt;
