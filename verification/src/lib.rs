//! The logic of a set of widgets: buttons, toggles, check boxes, radio button groups, spin
//! buttons, selects and a text area's cursor, with the placement rules they share.
//!
//! Each widget's state is a plain value here, and each input event is a function from that
//! state to the new state and what the display must do.


pub mod button;
pub mod check_box;
pub mod modifiers;
pub mod ordered;
pub mod placement;
pub mod radio_button;
pub mod scaler;
pub mod scroll_bar;
pub mod select;
pub mod spin_button;
pub mod switch_button;
pub mod text_cursor;
pub mod toggle_button;

pub use modifiers::Modifiers;
pub use placement::{PlacementShape, Position, WidgetPlcmtError, WidgetPlcmtErrorKind};
pub use radio_button::{RadioButtonError, RadioRegistry};
pub use scaler::{HoriScalerError, ScalerRound};
pub use scroll_bar::ScrollAxis;
pub use spin_button::SpinButtonError;
