//! View-state core of an interactive month calendar: the navigation and
//! dialog reducers, the settings store, the dependency-tracked month-view
//! cache, and the style projection that turns settings into presentation
//! variables.

pub mod compose;
pub mod dialog;
pub mod month;
pub mod month_view;
pub mod nav;
pub mod session;
pub mod settings;
pub mod style;

pub use compose::{ControlBar, RenderPlan, Weekday};
pub use dialog::{ActiveDialog, Dialog};
pub use month::{Date, Month};
pub use month_view::{MonthViewCache, ViewDeps};
pub use nav::{YearMonth, YearMonthAction};
pub use session::{AppliedEffects, Event, Session};
pub use settings::{FlagKey, Language, Options, SettingsStore, StyleKey};
pub use style::{FontImportCache, StyleProjection};
