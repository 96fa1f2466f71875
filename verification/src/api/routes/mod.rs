pub mod check;
pub mod dry_run;
pub mod unban;
