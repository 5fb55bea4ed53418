//! Validated values of the listing domain.

pub mod lair_description;
pub mod lair_image;
pub mod lair_lat;
pub mod lair_lon;
pub mod lair_title;
pub mod new_lair;
pub mod new_subscriber;
pub mod subscriber_password;
pub mod text;

pub use lair_description::LairDescription;
pub use lair_image::LairImage;
pub use lair_lat::LairLat;
pub use lair_lon::LairLon;
pub use lair_title::LairTitle;
pub use new_lair::NewLair;
pub use new_subscriber::NewSubscriber;
pub use subscriber_password::SubscriberPassword;
