//! The scan parameters that the form holds, and which screen is shown.
use vstd::prelude::*;
use vstd::string::*;

verus! {

/// The check boxes of the advanced scan options.
#[derive(Clone, Copy, Debug, PartialEq, Eq, Structural)]
pub struct ScanOptions {
    pub fast_mode: bool,
    pub slow_mode: bool,
    pub no_ping: bool,
}

impl Default for ScanOptions {
    /// All options off.
    fn default() -> (r: Self)
        ensures
            r == (ScanOptions { fast_mode: false, slow_mode: false, no_ping: false }),
    {
        ScanOptions { fast_mode: false, slow_mode: false, no_ping: false }
    }
}

/// The screen that the central panel shows.
#[derive(Clone, Copy, Debug, PartialEq, Eq, Structural)]
pub enum AppInterface {
    Scan,
    About,
}

impl Default for AppInterface {
    /// The scan screen.
    fn default() -> (r: Self)
        ensures
            r == AppInterface::Scan,
    {
        AppInterface::Scan
    }
}

/// The contents of the scan form.
#[derive(Debug)]
pub struct ScanParas {
    pub target_addr: String,
    pub target_port: String,
    pub exclued_target_addr: String,
    pub exclued_target_port: String,
    pub timeout: String,
    pub scan_options: ScanOptions,
    pub in_memory: bool,
    pub in_memroy_confirm: bool,
}

/// The mathematical value of the scan form.
pub struct ScanParasView {
    pub target_addr: Seq<char>,
    pub target_port: Seq<char>,
    pub exclued_target_addr: Seq<char>,
    pub exclued_target_port: Seq<char>,
    pub timeout: Seq<char>,
    pub scan_options: ScanOptions,
    pub in_memory: bool,
    pub in_memroy_confirm: bool,
}

impl View for ScanParas {
    type V = ScanParasView;

    open spec fn view(&self) -> ScanParasView {
        ScanParasView {
            target_addr: self.target_addr@,
            target_port: self.target_port@,
            exclued_target_addr: self.exclued_target_addr@,
            exclued_target_port: self.exclued_target_port@,
            timeout: self.timeout@,
            scan_options: self.scan_options,
            in_memory: self.in_memory,
            in_memroy_confirm: self.in_memroy_confirm,
        }
    }
}

/// The form as the application opens it: target `192.168.1.2`, port `22`,
/// every other text empty, every option and flag off.
pub open spec fn default_scan_paras() -> ScanParasView {
    ScanParasView {
        target_addr: "192.168.1.2"@,
        target_port: "22"@,
        exclued_target_addr: Seq::empty(),
        exclued_target_port: Seq::empty(),
        timeout: Seq::empty(),
        scan_options: ScanOptions { fast_mode: false, slow_mode: false, no_ping: false },
        in_memory: false,
        in_memroy_confirm: false,
    }
}

impl Default for ScanParas {
    fn default() -> (r: Self)
        ensures
            r@ == default_scan_paras(),
    {
        let r = ScanParas {
            target_addr: String::from_str("192.168.1.2"),
            target_port: String::from_str("22"),
            exclued_target_addr: String::new(),
            exclued_target_port: String::new(),
            timeout: String::new(),
            scan_options: ScanOptions::default(),
            in_memory: false,
            in_memroy_confirm: false,
        };
        assert(r@ =~= default_scan_paras());
        r
    }
}

} // verus!
