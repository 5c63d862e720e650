//! Job and printer states as the device reports them.
use vstd::prelude::*;

verus! {
/// State of a print job on the device.
#[derive(Clone, Copy, Debug, PartialEq, Eq, Structural, Hash)]
pub enum JobState {
    Waiting,
    Start,
    Processing,
    ProcessingHeld,
    Pending,
    Terminating,
    Aborted,
    Cancelled,
    Completed,
}

impl JobState {
    /// Wire code of the variant.
    pub open spec fn code(self) -> u8 {
        match self {
            JobState::Waiting => 1,
            JobState::Start => 2,
            JobState::Processing => 3,
            JobState::ProcessingHeld => 4,
            JobState::Pending => 5,
            JobState::Terminating => 6,
            JobState::Aborted => 7,
            JobState::Cancelled => 8,
            JobState::Completed => 9,
        }
    }

    pub fn to_primitive(&self) -> (r: u8)
        ensures
            r == self.code(),
    {
        match self {
            JobState::Waiting => 1,
            JobState::Start => 2,
            JobState::Processing => 3,
            JobState::ProcessingHeld => 4,
            JobState::Pending => 5,
            JobState::Terminating => 6,
            JobState::Aborted => 7,
            JobState::Cancelled => 8,
            JobState::Completed => 9,
        }
    }

    /// The variant with code `v`, if any.
    pub fn from_primitive(v: u8) -> (r: Option<JobState>)
        ensures
            match r {
                Some(x) => x.code() == v,
                None => forall|x: JobState| #[trigger] x.code() != v,
            },
    {
        match v {
            1 => Some(JobState::Waiting),
            2 => Some(JobState::Start),
            3 => Some(JobState::Processing),
            4 => Some(JobState::ProcessingHeld),
            5 => Some(JobState::Pending),
            6 => Some(JobState::Terminating),
            7 => Some(JobState::Aborted),
            8 => Some(JobState::Cancelled),
            9 => Some(JobState::Completed),
            _ => None,
        }
    }
}

/// Detail of a job's state.
#[derive(Clone, Copy, Debug, PartialEq, Eq, Structural, Hash)]
pub enum JobSubState {
    WaitingNone,
    StartNone,
    ProcessingNone,
    ProcessingPrintingDataDownloading,
    ProcessingPrintingDataUploading,
    ProcessingPrintingDataCloudRendering,
    ProcessingPrintingDataLocalRendering,
    ProcessingPrinting,
    ProcessingHeldNone,
    PendingNone,
    TerminatingNone,
    AbortedNone,
    CancelledNone,
    CompletedNone,
}

impl JobSubState {
    /// Wire code of the variant.
    pub open spec fn code(self) -> u16 {
        match self {
            JobSubState::WaitingNone => 1000,
            JobSubState::StartNone => 2000,
            JobSubState::ProcessingNone => 3000,
            JobSubState::ProcessingPrintingDataDownloading => 3001,
            JobSubState::ProcessingPrintingDataUploading => 3002,
            JobSubState::ProcessingPrintingDataCloudRendering => 3003,
            JobSubState::ProcessingPrintingDataLocalRendering => 3004,
            JobSubState::ProcessingPrinting => 3005,
            JobSubState::ProcessingHeldNone => 4000,
            JobSubState::PendingNone => 5000,
            JobSubState::TerminatingNone => 6000,
            JobSubState::AbortedNone => 7000,
            JobSubState::CancelledNone => 8000,
            JobSubState::CompletedNone => 9000,
        }
    }

    pub fn to_primitive(&self) -> (r: u16)
        ensures
            r == self.code(),
    {
        match self {
            JobSubState::WaitingNone => 1000,
            JobSubState::StartNone => 2000,
            JobSubState::ProcessingNone => 3000,
            JobSubState::ProcessingPrintingDataDownloading => 3001,
            JobSubState::ProcessingPrintingDataUploading => 3002,
            JobSubState::ProcessingPrintingDataCloudRendering => 3003,
            JobSubState::ProcessingPrintingDataLocalRendering => 3004,
            JobSubState::ProcessingPrinting => 3005,
            JobSubState::ProcessingHeldNone => 4000,
            JobSubState::PendingNone => 5000,
            JobSubState::TerminatingNone => 6000,
            JobSubState::AbortedNone => 7000,
            JobSubState::CancelledNone => 8000,
            JobSubState::CompletedNone => 9000,
        }
    }

    /// The variant with code `v`, if any.
    pub fn from_primitive(v: u16) -> (r: Option<JobSubState>)
        ensures
            match r {
                Some(x) => x.code() == v,
                None => forall|x: JobSubState| #[trigger] x.code() != v,
            },
    {
        match v {
            1000 => Some(JobSubState::WaitingNone),
            2000 => Some(JobSubState::StartNone),
            3000 => Some(JobSubState::ProcessingNone),
            3001 => Some(JobSubState::ProcessingPrintingDataDownloading),
            3002 => Some(JobSubState::ProcessingPrintingDataUploading),
            3003 => Some(JobSubState::ProcessingPrintingDataCloudRendering),
            3004 => Some(JobSubState::ProcessingPrintingDataLocalRendering),
            3005 => Some(JobSubState::ProcessingPrinting),
            4000 => Some(JobSubState::ProcessingHeldNone),
            5000 => Some(JobSubState::PendingNone),
            6000 => Some(JobSubState::TerminatingNone),
            7000 => Some(JobSubState::AbortedNone),
            8000 => Some(JobSubState::CancelledNone),
            9000 => Some(JobSubState::CompletedNone),
            _ => None,
        }
    }
}

/// State of the printer.
#[derive(Clone, Copy, Debug, PartialEq, Eq, Structural, Hash)]
pub enum PrinterState {
    Initializing,
    Idle,
    Sleep,
    Processing,
    Off,
    Error,
}

impl PrinterState {
    /// Wire code of the variant.
    pub open spec fn code(self) -> u8 {
        match self {
            PrinterState::Initializing => 10,
            PrinterState::Idle => 20,
            PrinterState::Sleep => 30,
            PrinterState::Processing => 40,
            PrinterState::Off => 50,
            PrinterState::Error => 60,
        }
    }

    pub fn to_primitive(&self) -> (r: u8)
        ensures
            r == self.code(),
    {
        match self {
            PrinterState::Initializing => 10,
            PrinterState::Idle => 20,
            PrinterState::Sleep => 30,
            PrinterState::Processing => 40,
            PrinterState::Off => 50,
            PrinterState::Error => 60,
        }
    }

    /// The variant with code `v`, if any.
    pub fn from_primitive(v: u8) -> (r: Option<PrinterState>)
        ensures
            match r {
                Some(x) => x.code() == v,
                None => forall|x: PrinterState| #[trigger] x.code() != v,
            },
    {
        match v {
            10 => Some(PrinterState::Initializing),
            20 => Some(PrinterState::Idle),
            30 => Some(PrinterState::Sleep),
            40 => Some(PrinterState::Processing),
            50 => Some(PrinterState::Off),
            60 => Some(PrinterState::Error),
            _ => None,
        }
    }
}

/// Detail of the printer's state.
#[derive(Clone, Copy, Debug, PartialEq, Eq, Structural, Hash)]
pub enum PrinterSubState {
    InitNone,
    IdleNone,
    Printing,
    FileTransferring,
    Cancelling,
    Upgrading,
    Calibrating,
    SemiAutoPrinting,
    SemiAutoScanRequired,
    SemiAutoScanning,
    ScanWaiting,
    CopyWaiting,
    Rendering,
    Initializing,
    Decoding,
    LoadingPaper,
    PrintingYellow,
    PrintingMagenta,
    PrintingCyan,
    PrintingOC,
    Preheating,
    Cooldown,
    Cleaning,
    HomeFeed,
    EjectingPaper,
    SmartSheet,
    CutPick,
    CutHome,
    Cutting,
    CutEject,
    Normal,
    NotRealOff,
    ErrorNone,
}

impl PrinterSubState {
    /// Wire code of the variant.
    pub open spec fn code(self) -> u16 {
        match self {
            PrinterSubState::InitNone => 1000,
            PrinterSubState::IdleNone => 2000,
            PrinterSubState::Printing => 3001,
            PrinterSubState::FileTransferring => 3002,
            PrinterSubState::Cancelling => 3006,
            PrinterSubState::Upgrading => 3007,
            PrinterSubState::Calibrating => 3008,
            PrinterSubState::SemiAutoPrinting => 3009,
            PrinterSubState::SemiAutoScanRequired => 3010,
            PrinterSubState::SemiAutoScanning => 3011,
            PrinterSubState::ScanWaiting => 3012,
            PrinterSubState::CopyWaiting => 3013,
            PrinterSubState::Rendering => 3014,
            PrinterSubState::Initializing => 3015,
            PrinterSubState::Decoding => 3016,
            PrinterSubState::LoadingPaper => 3017,
            PrinterSubState::PrintingYellow => 3018,
            PrinterSubState::PrintingMagenta => 3019,
            PrinterSubState::PrintingCyan => 3020,
            PrinterSubState::PrintingOC => 3021,
            PrinterSubState::Preheating => 3022,
            PrinterSubState::Cooldown => 3023,
            PrinterSubState::Cleaning => 3024,
            PrinterSubState::HomeFeed => 3025,
            PrinterSubState::EjectingPaper => 3026,
            PrinterSubState::SmartSheet => 3027,
            PrinterSubState::CutPick => 3028,
            PrinterSubState::CutHome => 3029,
            PrinterSubState::Cutting => 3030,
            PrinterSubState::CutEject => 3031,
            PrinterSubState::Normal => 4002,
            PrinterSubState::NotRealOff => 5002,
            PrinterSubState::ErrorNone => 6000,
        }
    }

    pub fn to_primitive(&self) -> (r: u16)
        ensures
            r == self.code(),
    {
        match self {
            PrinterSubState::InitNone => 1000,
            PrinterSubState::IdleNone => 2000,
            PrinterSubState::Printing => 3001,
            PrinterSubState::FileTransferring => 3002,
            PrinterSubState::Cancelling => 3006,
            PrinterSubState::Upgrading => 3007,
            PrinterSubState::Calibrating => 3008,
            PrinterSubState::SemiAutoPrinting => 3009,
            PrinterSubState::SemiAutoScanRequired => 3010,
            PrinterSubState::SemiAutoScanning => 3011,
            PrinterSubState::ScanWaiting => 3012,
            PrinterSubState::CopyWaiting => 3013,
            PrinterSubState::Rendering => 3014,
            PrinterSubState::Initializing => 3015,
            PrinterSubState::Decoding => 3016,
            PrinterSubState::LoadingPaper => 3017,
            PrinterSubState::PrintingYellow => 3018,
            PrinterSubState::PrintingMagenta => 3019,
            PrinterSubState::PrintingCyan => 3020,
            PrinterSubState::PrintingOC => 3021,
            PrinterSubState::Preheating => 3022,
            PrinterSubState::Cooldown => 3023,
            PrinterSubState::Cleaning => 3024,
            PrinterSubState::HomeFeed => 3025,
            PrinterSubState::EjectingPaper => 3026,
            PrinterSubState::SmartSheet => 3027,
            PrinterSubState::CutPick => 3028,
            PrinterSubState::CutHome => 3029,
            PrinterSubState::Cutting => 3030,
            PrinterSubState::CutEject => 3031,
            PrinterSubState::Normal => 4002,
            PrinterSubState::NotRealOff => 5002,
            PrinterSubState::ErrorNone => 6000,
        }
    }

    /// The variant with code `v`, if any.
    pub fn from_primitive(v: u16) -> (r: Option<PrinterSubState>)
        ensures
            match r {
                Some(x) => x.code() == v,
                None => forall|x: PrinterSubState| #[trigger] x.code() != v,
            },
    {
        match v {
            1000 => Some(PrinterSubState::InitNone),
            2000 => Some(PrinterSubState::IdleNone),
            3001 => Some(PrinterSubState::Printing),
            3002 => Some(PrinterSubState::FileTransferring),
            3006 => Some(PrinterSubState::Cancelling),
            3007 => Some(PrinterSubState::Upgrading),
            3008 => Some(PrinterSubState::Calibrating),
            3009 => Some(PrinterSubState::SemiAutoPrinting),
            3010 => Some(PrinterSubState::SemiAutoScanRequired),
            3011 => Some(PrinterSubState::SemiAutoScanning),
            3012 => Some(PrinterSubState::ScanWaiting),
            3013 => Some(PrinterSubState::CopyWaiting),
            3014 => Some(PrinterSubState::Rendering),
            3015 => Some(PrinterSubState::Initializing),
            3016 => Some(PrinterSubState::Decoding),
            3017 => Some(PrinterSubState::LoadingPaper),
            3018 => Some(PrinterSubState::PrintingYellow),
            3019 => Some(PrinterSubState::PrintingMagenta),
            3020 => Some(PrinterSubState::PrintingCyan),
            3021 => Some(PrinterSubState::PrintingOC),
            3022 => Some(PrinterSubState::Preheating),
            3023 => Some(PrinterSubState::Cooldown),
            3024 => Some(PrinterSubState::Cleaning),
            3025 => Some(PrinterSubState::HomeFeed),
            3026 => Some(PrinterSubState::EjectingPaper),
            3027 => Some(PrinterSubState::SmartSheet),
            3028 => Some(PrinterSubState::CutPick),
            3029 => Some(PrinterSubState::CutHome),
            3030 => Some(PrinterSubState::Cutting),
            3031 => Some(PrinterSubState::CutEject),
            4002 => Some(PrinterSubState::Normal),
            5002 => Some(PrinterSubState::NotRealOff),
            6000 => Some(PrinterSubState::ErrorNone),
            _ => None,
        }
    }
}

impl JobState {
    /// Whether no further state follows: aborted, cancelled or completed.
    pub open spec fn spec_is_terminal(self) -> bool {
        self is Aborted || self is Cancelled || self is Completed
    }

    pub fn is_terminal(&self) -> (r: bool)
        ensures
            r == self.spec_is_terminal(),
    {
        matches!(self, JobState::Aborted | JobState::Cancelled | JobState::Completed)
    }
}

/// A job's status as the device reports it.
#[derive(Clone, Debug)]
pub struct JobStatusInfo {
    pub job_id: u32,
    pub job_state: JobState,
    pub job_sub_state: JobSubState,
    pub copies: u8,
    pub printing_page_number: u8,
    pub user_account: String,
    pub channel: u32,
    pub media_size: u32,
    pub media_type: u32,
    pub job_type: u32,
    pub document_format: u32,
    pub file_size: u32,
    pub transfer_status: u32,
    pub transfer_size: u32,
}

/// The printer's state, its detail, and its alert text.
#[derive(Clone, Debug)]
pub struct DeviceStatus {
    pub state: PrinterState,
    pub sub_state: PrinterSubState,
    pub alerts: String,
}

} // verus!
