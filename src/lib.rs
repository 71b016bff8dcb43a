//! A "New Folder" dialog session: the field, its selection and focus, the
//! confirm and cancel actions with their one-shot result, and the dialog's
//! colours and fonts. The windowing host draws it and feeds it events.

pub mod dialog;
pub mod fonts;
pub mod laws;
pub mod palette;
pub mod text;

pub use dialog::TemplateApp;
