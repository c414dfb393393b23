//! Layout engine for printable attendance sheets.
//!
//! The library turns a small configuration (class metadata, an optional
//! roster, row counts) into a deterministic sequence of positioned draw
//! operations and page breaks on a fixed US-letter page.  All geometry is
//! computed in micrometres (thousandths of a millimetre) so that every
//! layout decision is exact integer arithmetic.  Rendering the operations
//! into an actual document, as well as argument parsing and file loading,
//! is left to unverified callers.

pub mod date;
pub mod driver;
pub mod error;
pub mod geom;
pub mod grid;
pub mod header;
pub mod ident;
pub mod logo;
pub mod mailing;
pub mod ops;
pub mod qr;
pub mod textfmt;
