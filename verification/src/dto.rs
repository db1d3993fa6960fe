//! Rows and records as the database and the event stream hold them.
//! UUIDs are held as their 128-bit numbers, instants as microseconds since
//! the Unix epoch, JSON documents as `serde_json::Value`.
pub mod console_admin;
pub mod console_apikey;
pub mod events;
pub mod gray_releases;
pub mod gray_resources;
pub mod machine_gray_allocations;
pub mod machine_tags;
pub mod machine_users;
pub mod strategy_types;
pub mod system;
pub mod version_types;
pub mod versions;

pub use console_admin::{ConsoleAdminDto, ConsoleAdminPermissionDto, ConsolePermissionDto};
pub use console_apikey::ConsoleApiKeyDto;
pub use system::{ApiKeyDto, SystemConfigDto, UserPreferenceDto};
