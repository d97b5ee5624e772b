pub mod subscriptions;

pub use subscriptions::ConfirmationEmail;
pub use subscriptions::FormData;
