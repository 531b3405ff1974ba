//! Localization of messages for a browser.
//!
//! The browser asks for messages by key, with arguments, and gets strings. Between the two stand
//! the bundles of Fluent, which are loaded and formatted outside this library. What the library
//! does is to put the keys and arguments of the browser into the form that Fluent takes, to put
//! what Fluent answers into the form that the browser takes, under this browser's names, and to
//! keep the handles through which all this goes.

pub mod args;
pub mod errors;
pub mod keys;
pub mod lists;
pub mod locales;
pub mod localization;
pub mod messages;
pub mod nsstring;
pub mod rebrand;
