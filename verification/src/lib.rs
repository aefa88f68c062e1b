//! Best-effort introspection of local identity and environment facts.
//!
//! The library answers questions such as "what is the current user's login
//! name", "what is this device called" and "which languages does the user
//! prefer", working from the raw facts a platform provider collected.
//! Those facts arrive as an [`Os`] report: each field holds either the
//! bytes or text the operating system handed back, or the [`Error`] that
//! kept it from answering.  On top of a report the library gives three
//! layers:
//!
//! * [`fallible`] — one query per identity fact, surfacing a typed
//!   [`Error`] instead of guessing when data is missing or malformed;
//! * the convenience functions at the crate root ([`username`],
//!   [`realname`], [`hostname`], [`devicename`], [`distro`], ...), which
//!   walk a documented fallback chain and always produce a usable value;
//! * the per-platform provider helpers ([`unix`], [`windows`], [`wasm`],
//!   [`os::redox`], [`os::wasi`], [`fake`], [`os::daku`]), which turn one
//!   operating-system family's data sources into a report's fields.
//!
//! Native text that is not guaranteed to be Unicode is kept as a
//! [`NativeString`]; the strict and lossy decoding rules live in
//! [`conversions`].  Locale strings such as `en_US.UTF-8` are parsed by
//! [`parse_locale`] into structured [`Language`] values.  All queries are
//! pure reads: nothing is cached, mutated or kept between calls.

mod api;
mod arch;
mod desktop_env;
mod error;
mod language;
mod platform;

pub mod conversions;
pub mod fake;
pub mod fallible;
pub mod os;
pub mod text;
pub mod unix;
pub mod wasm;
pub mod windows;

pub use api::account;
pub use api::account_os;
pub use api::arch;
pub use api::desktop_env;
pub use api::devicename;
pub use api::devicename_os;
pub use api::distro;
pub use api::hostname;
pub use api::langs;
pub use api::lemma_devicename_falls_back;
pub use api::lemma_empty_field_decodes_empty;
pub use api::lemma_hostname_lowercase;
pub use api::lemma_realname_falls_back;
pub use api::platform;
pub use api::realname;
pub use api::realname_os;
pub use api::spec_devicename;
pub use api::spec_distro;
pub use api::spec_hostname;
pub use api::spec_realname;
pub use api::spec_username;
pub use api::username;
pub use api::username_os;
pub use arch::Arch;
pub use arch::Width;
pub use desktop_env::DesktopEnv;
pub use error::Error;
pub use language::lemma_country_round_trip;
pub use language::lemma_language_round_trip;
pub use language::parse_locale;
pub use language::Country;
pub use language::Language;
pub use os::NativeString;
pub use os::Os;
pub use platform::Platform;
