//! The backend of a small desktop shell: the decisions around reading,
//! writing and probing text files for a front end (`access`), and a greeting
//! command (`greeting`). The filesystem calls themselves are made by the host.

pub mod access;
pub mod greeting;
