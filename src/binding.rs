use vstd::prelude::*;

verus! {

/// Return code of a native engine call.
#[allow(non_camel_case_types)]
pub type cl_error_t = i32;

/// Opaque native engine; only ever handled behind a pointer by the host.
#[allow(non_camel_case_types)]
pub struct cl_engine {
    _private: [u8; 0],
}

/// Verdict the native engine gives for one scanned file.
#[allow(non_camel_case_types)]
#[derive(Debug, Clone, Copy, PartialEq, Eq, Structural)]
pub enum cl_verdict_t {
    CL_VERDICT_NOTHING_FOUND,
    CL_VERDICT_TRUSTED,
    CL_VERDICT_STRONG_INDICATOR,
    CL_VERDICT_POTENTIALLY_UNWANTED,
}

pub open spec fn verdict_code(v: cl_verdict_t) -> i32 {
    match v {
        cl_verdict_t::CL_VERDICT_NOTHING_FOUND => 0,
        cl_verdict_t::CL_VERDICT_TRUSTED => 1,
        cl_verdict_t::CL_VERDICT_STRONG_INDICATOR => 2,
        cl_verdict_t::CL_VERDICT_POTENTIALLY_UNWANTED => 3,
    }
}

impl cl_verdict_t {
    /// The numeric value the native library uses for this verdict.
    pub fn code(&self) -> (r: i32)
        ensures
            r == verdict_code(*self),
    {
        match self {
            cl_verdict_t::CL_VERDICT_NOTHING_FOUND => 0,
            cl_verdict_t::CL_VERDICT_TRUSTED => 1,
            cl_verdict_t::CL_VERDICT_STRONG_INDICATOR => 2,
            cl_verdict_t::CL_VERDICT_POTENTIALLY_UNWANTED => 3,
        }
    }

    /// The verdict with the given numeric value, if there is one.
    pub fn from_code(code: i32) -> (r: Option<cl_verdict_t>)
        ensures
            r matches Some(v) ==> verdict_code(v) == code,
            r is None <==> !(0 <= code <= 3),
    {
        if code == 0 {
            Some(cl_verdict_t::CL_VERDICT_NOTHING_FOUND)
        } else if code == 1 {
            Some(cl_verdict_t::CL_VERDICT_TRUSTED)
        } else if code == 2 {
            Some(cl_verdict_t::CL_VERDICT_STRONG_INDICATOR)
        } else if code == 3 {
            Some(cl_verdict_t::CL_VERDICT_POTENTIALLY_UNWANTED)
        } else {
            None
        }
    }
}

/// Option words handed to the native scan call.
#[allow(non_camel_case_types)]
#[derive(Debug, Clone, Copy, PartialEq, Eq, Structural)]
pub struct cl_scan_options {
    pub general: u32,
    pub parse: u32,
    pub heuristic: u32,
    pub mail: u32,
    pub dev: u32,
}

pub const CL_SCAN_GENERAL_ALLMATCHES: u32 = 0x1;
pub const CL_SCAN_GENERAL_COLLECT_METADATA: u32 = 0x2;
pub const CL_SCAN_GENERAL_HEURISTICS: u32 = 0x4;

pub const CL_SCAN_PARSE_ARCHIVE: u32 = 0x1;
pub const CL_SCAN_PARSE_ELF: u32 = 0x2;
pub const CL_SCAN_PARSE_PDF: u32 = 0x4;
pub const CL_SCAN_PARSE_SWF: u32 = 0x8;
pub const CL_SCAN_PARSE_HWP: u32 = 0x10;
pub const CL_SCAN_PARSE_XMLDOCS: u32 = 0x20;
pub const CL_SCAN_PARSE_MAIL: u32 = 0x40;
pub const CL_SCAN_PARSE_OLE2: u32 = 0x80;
pub const CL_SCAN_PARSE_HTML: u32 = 0x100;
pub const CL_SCAN_PARSE_PE: u32 = 0x200;

/// Every parser the native engine offers.
pub const CL_SCAN_PARSE_ALL: u32 = 0xffff_ffff;

pub const CL_CLEAN: cl_error_t = 0;
pub const CL_SUCCESS: cl_error_t = 0;
pub const CL_VIRUS: cl_error_t = 1;

pub const CL_DB_PHISHING: u32 = 0x2;
pub const CL_DB_PHISHING_URLS: u32 = 0x8;
pub const CL_DB_PUA: u32 = 0x10;
pub const CL_DB_BYTECODE: u32 = 0x2000;
pub const CL_DB_STDOPT: u32 = 0x200a;

/// The five toggles a task hands to the engine.
#[derive(Debug, Clone, Copy, PartialEq, Eq, Structural)]
pub struct ScanOptions {
    pub scan_archive: bool,
    pub scan_pdf: bool,
    pub scan_elf: bool,
    pub scan_mail: bool,
    pub heuristics: bool,
}

impl Default for ScanOptions {
    /// Heuristics on; the per-format toggles off (the binding enables every
    /// parser on each call whatever they say).
    fn default() -> (r: Self)
        ensures
            !r.scan_archive,
            !r.scan_pdf,
            !r.scan_elf,
            !r.scan_mail,
            r.heuristics,
    {
        ScanOptions {
            scan_archive: false,
            scan_pdf: false,
            scan_elf: false,
            scan_mail: false,
            heuristics: true,
        }
    }
}

/// Verdict of the binding for one file.
#[derive(Debug, Clone, PartialEq, Eq)]
pub struct ScanResult {
    pub filename: String,
    pub virus_name: Option<String>,
    pub is_infected: bool,
}

/// Failures of the native binding, each with a message that carries the
/// native return code where there is one.
#[derive(Debug, Clone, PartialEq, Eq)]
pub enum ClamAVError {
    InitializationFailed(String),
    EngineCreationFailed(String),
    DatabaseLoadFailed(String),
    EngineCompilationFailed(String),
    ScanFailed(String),
    InvalidPath(String),
}

pub open spec fn error_message(e: ClamAVError) -> Seq<char> {
    match e {
        ClamAVError::InitializationFailed(m) => m@,
        ClamAVError::EngineCreationFailed(m) => m@,
        ClamAVError::DatabaseLoadFailed(m) => m@,
        ClamAVError::EngineCompilationFailed(m) => m@,
        ClamAVError::ScanFailed(m) => m@,
        ClamAVError::InvalidPath(m) => m@,
    }
}

impl ClamAVError {
    /// The message the error carries.
    pub fn to_string(&self) -> (r: String)
        ensures
            r@ == error_message(*self),
    {
        match self {
            ClamAVError::InitializationFailed(m) => m.clone(),
            ClamAVError::EngineCreationFailed(m) => m.clone(),
            ClamAVError::DatabaseLoadFailed(m) => m.clone(),
            ClamAVError::EngineCompilationFailed(m) => m.clone(),
            ClamAVError::ScanFailed(m) => m.clone(),
            ClamAVError::InvalidPath(m) => m.clone(),
        }
    }
}

pub open spec fn digit_char(d: int) -> char {
    if d == 0 {
        '0'
    } else if d == 1 {
        '1'
    } else if d == 2 {
        '2'
    } else if d == 3 {
        '3'
    } else if d == 4 {
        '4'
    } else if d == 5 {
        '5'
    } else if d == 6 {
        '6'
    } else if d == 7 {
        '7'
    } else if d == 8 {
        '8'
    } else {
        '9'
    }
}

/// Decimal digits of a natural number, most significant first.
pub open spec fn nat_text(n: nat) -> Seq<char>
    decreases n,
{
    if n < 10 {
        seq![digit_char(n as int)]
    } else {
        nat_text(n / 10).push(digit_char((n % 10) as int))
    }
}

/// Decimal text of an integer, with a leading '-' when it is negative.
pub open spec fn int_text(n: int) -> Seq<char> {
    if n < 0 {
        seq!['-'] + nat_text((-n) as nat)
    } else {
        nat_text(n as nat)
    }
}

/// Relies on `ToString` for `i32` (its `Display`): decimal digits, with a
/// leading '-' when the value is negative.
#[verifier::external_body]
fn code_text(code: i32) -> (r: String)
    ensures
        r@ == int_text(code as int),
{
    code.to_string()
}

/// Option words for one native scan: every parser, all matches, and the
/// heuristics when the task asks for them.
pub fn native_scan_options(options: &ScanOptions) -> (r: cl_scan_options)
    ensures
        r.general == (if options.heuristics {
            CL_SCAN_GENERAL_ALLMATCHES | CL_SCAN_GENERAL_HEURISTICS
        } else {
            CL_SCAN_GENERAL_ALLMATCHES
        }),
        r.parse == CL_SCAN_PARSE_ALL,
        r.heuristic == 0,
        r.mail == 0,
        r.dev == 0,
{
    let mut opts = cl_scan_options { general: 0, parse: CL_SCAN_PARSE_ALL, heuristic: 0, mail: 0, dev: 0 };
    if options.heuristics {
        opts.general = opts.general | CL_SCAN_GENERAL_HEURISTICS;
    }
    opts.general = opts.general | CL_SCAN_GENERAL_ALLMATCHES;
    assert(0u32 | CL_SCAN_GENERAL_HEURISTICS | CL_SCAN_GENERAL_ALLMATCHES
        == CL_SCAN_GENERAL_ALLMATCHES | CL_SCAN_GENERAL_HEURISTICS) by (bit_vector);
    assert(0u32 | CL_SCAN_GENERAL_ALLMATCHES == CL_SCAN_GENERAL_ALLMATCHES) by (bit_vector);
    opts
}

/// One step of engine initialisation whose native return code is checked.
#[derive(Debug, Clone, PartialEq, Eq)]
pub enum InitStep {
    /// Global library initialisation.
    GlobalInit,
    /// Setting the certificate directory, given here.
    SetCertsDir(String),
    /// Loading the signature database.
    LoadDatabase,
    /// Compiling the loaded engine.
    Compile,
}

/// Kind and message of the error a failed initialisation step reports.
pub open spec fn init_step_error(step: InitStep, code: int, e: ClamAVError) -> bool {
    match step {
        InitStep::GlobalInit => e matches ClamAVError::InitializationFailed(m)
            && m@ == "cl_init failed with code: "@ + int_text(code),
        InitStep::SetCertsDir(dir) => e matches ClamAVError::InitializationFailed(m)
            && m@ == "Failed to set certs directory '"@ + dir@ + "': error code "@ + int_text(code),
        InitStep::LoadDatabase => e matches ClamAVError::DatabaseLoadFailed(m)
            && m@ == "cl_load failed with code: "@ + int_text(code),
        InitStep::Compile => e matches ClamAVError::EngineCompilationFailed(m)
            && m@ == "cl_engine_compile failed with code: "@ + int_text(code),
    }
}

/// Checks the return code of one initialisation step: success is
/// `CL_SUCCESS`, anything else fails with the step's error.
pub fn check_init_step(step: &InitStep, code: cl_error_t) -> (r: Result<(), ClamAVError>)
    ensures
        r is Ok <==> code == CL_SUCCESS,
        r matches Err(e) ==> init_step_error(*step, code as int, e),
{
    if code == CL_SUCCESS {
        return Ok(());
    }
    let text = code_text(code);
    let e = match step {
        InitStep::GlobalInit => {
            let mut m = String::from_str("cl_init failed with code: ");
            m.append(text.as_str());
            ClamAVError::InitializationFailed(m)
        },
        InitStep::SetCertsDir(dir) => {
            let mut m = String::from_str("Failed to set certs directory '");
            m.append(dir.as_str());
            m.append("': error code ");
            m.append(text.as_str());
            ClamAVError::InitializationFailed(m)
        },
        InitStep::LoadDatabase => {
            let mut m = String::from_str("cl_load failed with code: ");
            m.append(text.as_str());
            ClamAVError::DatabaseLoadFailed(m)
        },
        InitStep::Compile => {
            let mut m = String::from_str("cl_engine_compile failed with code: ");
            m.append(text.as_str());
            ClamAVError::EngineCompilationFailed(m)
        },
    };
    Err(e)
}

/// The verdict code says the file holds a threat.
pub open spec fn verdict_is_threat(verdict: int) -> bool {
    verdict == 2 || verdict == 3
}

/// Name reported for a threat: the engine's last alert, or "Unknown".
pub open spec fn reported_virus_name(alert: Option<String>) -> Seq<char> {
    match alert {
        Some(a) => a@,
        None => "Unknown"@,
    }
}

/// Maps the outcome of one native scan call (its return code, verdict code
/// and last alert) to the binding's result for the file at `path`.
pub fn interpret_scan(path: &str, ret: cl_error_t, verdict: i32, alert: Option<String>) -> (r: Result<ScanResult, ClamAVError>)
    ensures
        verdict_is_threat(verdict as int) ==> (r matches Ok(res) && res.filename@ == path@
            && res.is_infected && (res.virus_name matches Some(n) && n@ == reported_virus_name(alert))),
        verdict == 1 ==> (r matches Ok(res) && res.filename@ == path@ && !res.is_infected
            && res.virus_name is None),
        !verdict_is_threat(verdict as int) && verdict != 1 ==> (if ret == CL_CLEAN || ret == CL_VIRUS {
            r matches Ok(res) && res.filename@ == path@ && !res.is_infected && res.virus_name is None
        } else {
            r matches Err(ClamAVError::ScanFailed(m))
                && m@ == "cl_scanfile_ex failed with code: "@ + int_text(ret as int)
        }),
{
    if verdict == 2 || verdict == 3 {
        let name = match alert {
            Some(a) => a,
            None => String::from_str("Unknown"),
        };
        Ok(ScanResult { filename: path.to_owned(), virus_name: Some(name), is_infected: true })
    } else if verdict == 1 || ret == CL_CLEAN || ret == CL_VIRUS {
        Ok(ScanResult { filename: path.to_owned(), virus_name: None, is_infected: false })
    } else {
        let mut m = String::from_str("cl_scanfile_ex failed with code: ");
        let text = code_text(ret);
        m.append(text.as_str());
        Err(ClamAVError::ScanFailed(m))
    }
}

} // verus!
