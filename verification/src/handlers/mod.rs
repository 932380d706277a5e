pub mod emails;
