//! Weather indicator for status bars: the verified core of the wttr.in client.
pub mod text;
pub mod numeric;
pub mod html;
pub mod model;
pub mod floats;
pub mod location;
pub mod lang;
pub mod icons;
pub mod cache;
pub mod clock;
pub mod report;
pub mod tooltip;
pub mod weather;
pub mod fetch;
pub mod markup;
