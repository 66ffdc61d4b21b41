//! Subscription lifecycle for a newsletter: validation of subscriber identity,
//! a transactional subscription store, token redemption and newsletter fan-out.

pub mod text;
pub mod subscriber_name;
pub mod subscriber_email;
pub mod new_subscriber;
pub mod subscriptions;
pub mod store;
pub mod email_client;
pub mod subscriptions_confirm;
pub mod newsletters;
pub mod configuration;
pub mod startup;
