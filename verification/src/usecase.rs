pub mod crowdfunding;

pub use self::crowdfunding::{create_crowdfunding, get_crowdfunding};
