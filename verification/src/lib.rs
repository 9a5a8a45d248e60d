//! Tracker for a single discussion thread inside a paginated catalog.
//!
//! The library holds the logic that is worth reasoning about: the adaptive
//! refresh policy (when is it worth re-querying the catalog?), the catalog
//! matcher (where is the tracked thread right now?), and the notification
//! state machine (must the operator be alerted, and exactly once per page
//! crossing?). Fetching the catalog, dispatching notifications and the
//! command line live outside the library, which they drive through plain
//! values: an observation, a timestamp in milliseconds, a dispatch outcome.

pub mod api;
pub mod data;
pub mod poll;
pub mod pushover;
pub mod response;
