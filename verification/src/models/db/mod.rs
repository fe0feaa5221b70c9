pub mod sense;
