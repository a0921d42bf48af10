//! Verified core of the tela UI base: calendar time, versions, bundle manifests and their
//! admission, input and touch normalization, the controlled text channel, the session/frame
//! bookkeeping and presentation policy shared by the platform hosts, image mip chains, pixel
//! rectangles, fonts, icons, device readings and the log filter.
pub mod appkit_input;
pub mod bundle;
pub mod clock;
pub mod dev_bundle;
pub mod device_info;
pub mod digest;
pub mod fonts;
pub mod icons;
pub mod image;
pub mod json;
pub mod keyboard;
pub mod log;
pub mod presentation;
pub mod raster;
pub mod session;
pub mod text;
pub mod text_channel;
pub mod time;
pub mod touch;
pub mod version;
pub mod web_input;
pub mod win32_input;
pub mod window;
