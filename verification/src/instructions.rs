pub mod abort;
pub mod initialize;
pub mod unlock;
pub mod withdraw;
