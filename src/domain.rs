//! Domain entities and the status lifecycle shared by epics and stories.
pub mod epic;
pub mod state;
pub mod story;

pub use epic::{Epic, EpicBuilder};
pub use state::{Operation, StatusState, StatusTransitionError};
pub use story::{Story, StoryBuilder};
