//! Console client logic: command lines, commands, editing and output.
#![allow(unused_imports)]

pub mod ansi;
pub mod answers;
pub mod bisect;
pub mod building;
pub mod bytes;
pub mod candidates;
pub mod case;
pub mod client;
pub mod columns;
pub mod command;
pub mod completion;
pub mod dispatch;
pub mod document;
pub mod events;
pub mod gather;
pub mod git;
pub mod gitignore;
pub mod goals;
pub mod highlight;
pub mod history;
pub mod input;
pub mod keys;
pub mod lists;
pub mod number;
pub mod offers;
pub mod offset;
pub mod order;
pub mod output;
pub mod paths;
pub mod phrases;
pub mod pieces;
pub mod press;
pub mod profiles;
pub mod project;
pub mod prune;
pub mod rendering;
pub mod report;
pub mod repository;
pub mod shell;
pub mod show_file;
pub mod status;
pub mod terminal;
pub mod text;
pub mod tree;
pub mod turns;
pub mod usage;
pub mod workflow;
