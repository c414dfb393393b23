//! Error taxonomy for a generation run.

use vstd::prelude::*;

verus! {

/// Every failure a run can hit.  Configuration, input-loading and output
/// errors are produced by the surrounding program; the layout core itself
/// only raises `QrError` (payload too long for the barcode) and `DateError`
/// (unparseable date).
#[derive(Debug)]
pub enum AppError {
    PdfError(String),
    RosterError(String),
    QrError(String),
    DateError(String),
    LogoError(String),
    IoError(String),
}

impl AppError {
    /// A short tag naming the variant, for display by callers.
    pub fn kind(&self) -> (r: &'static str)
        ensures
            r@ == match self {
                AppError::PdfError(_) => "PDF generation"@,
                AppError::RosterError(_) => "roster"@,
                AppError::QrError(_) => "QR code"@,
                AppError::DateError(_) => "date"@,
                AppError::LogoError(_) => "logo"@,
                AppError::IoError(_) => "I/O"@,
            },
    {
        match self {
            AppError::PdfError(_) => "PDF generation",
            AppError::RosterError(_) => "roster",
            AppError::QrError(_) => "QR code",
            AppError::DateError(_) => "date",
            AppError::LogoError(_) => "logo",
            AppError::IoError(_) => "I/O",
        }
    }

    /// The message carried by the variant.
    pub fn message(&self) -> (r: &str)
        ensures
            r@ == match self {
                AppError::PdfError(m) => m@,
                AppError::RosterError(m) => m@,
                AppError::QrError(m) => m@,
                AppError::DateError(m) => m@,
                AppError::LogoError(m) => m@,
                AppError::IoError(m) => m@,
            },
    {
        match self {
            AppError::PdfError(m) => m.as_str(),
            AppError::RosterError(m) => m.as_str(),
            AppError::QrError(m) => m.as_str(),
            AppError::DateError(m) => m.as_str(),
            AppError::LogoError(m) => m.as_str(),
            AppError::IoError(m) => m.as_str(),
        }
    }
}

} // verus!
