//! The requests that the commands send to `irlumed`, and how long each may take.

use vstd::prelude::*;

use crate::text::opt_text;

verus! {

/// A camera as a supervisor identified it, with the endpoints it had.
pub struct CameraSelection {
    pub supervisor_id: String,
    pub instance_id: String,
    pub generation: u64,
    pub endpoint_paths: Vec<String>,
}

/// A request to the daemon. Secrets travel beside it, never in it.
pub enum Request {
    ListProfiles { user: String, structured_errors: bool },
    AddScan { user: String, profile: String, scans: Option<usize>, report_enrollment: bool },
    ForgetRecognizer { user: String, space: String },
    RemoveCameraGroup { user: String, group: String },
    AddCameraGroup { user: String, new_profile: Option<String>, scans: Option<usize> },
    DeleteScan { user: String, profile: String, scan: String },
    DeleteProfile { user: String, profile: String },
    RenameScan { user: String, profile: String, scan: String, new_name: String },
    RenameProfile { user: String, profile: String, new_name: String },
    SetRequireEyesOpen { user: String, on: bool },
    Enroll { user: String, new_profile: Option<String>, scans: Option<usize>, reset: bool },
    Authenticate { user: String },
    KeyringInfo { user: String },
    KeyringMetadata { user: String },
    HasSealedPassword { user: String },
    SealPassword { user: String },
    ForgetPassword { user: String },
    ReleaseTokenForDisarm { user: String },
    RecoveryStatus { user: String },
    RecoverySetup { user: String },
    RecoveryForget { user: String },
    SetCameras { rgb: String, ir: String },
    SetCamerasIfCurrent { rgb: String, ir: String, expected: CameraSelection },
    SetupIrEmitter { dry_run: bool },
    TuneCaptureMode { rounds: Option<usize>, emit_record_path: Option<String> },
    CaptureModeStatus,
    CameraDiagnostics,
    Identify,
    SelfTest,
    Health,
    Ping,
}

/// What a request asks for.
pub enum RequestV {
    ListProfiles { user: Seq<char>, structured_errors: bool },
    AddScan { user: Seq<char>, profile: Seq<char>, scans: Option<usize>, report_enrollment: bool },
    ForgetRecognizer { user: Seq<char>, space: Seq<char> },
    RemoveCameraGroup { user: Seq<char>, group: Seq<char> },
    AddCameraGroup { user: Seq<char>, new_profile: Option<Seq<char>>, scans: Option<usize> },
    DeleteScan { user: Seq<char>, profile: Seq<char>, scan: Seq<char> },
    DeleteProfile { user: Seq<char>, profile: Seq<char> },
    RenameScan { user: Seq<char>, profile: Seq<char>, scan: Seq<char>, new_name: Seq<char> },
    RenameProfile { user: Seq<char>, profile: Seq<char>, new_name: Seq<char> },
    SetRequireEyesOpen { user: Seq<char>, on: bool },
    Enroll { user: Seq<char>, new_profile: Option<Seq<char>>, scans: Option<usize>, reset: bool },
    Authenticate { user: Seq<char> },
    KeyringInfo { user: Seq<char> },
    KeyringMetadata { user: Seq<char> },
    HasSealedPassword { user: Seq<char> },
    SealPassword { user: Seq<char> },
    ForgetPassword { user: Seq<char> },
    ReleaseTokenForDisarm { user: Seq<char> },
    RecoveryStatus { user: Seq<char> },
    RecoverySetup { user: Seq<char> },
    RecoveryForget { user: Seq<char> },
    SetCameras { rgb: Seq<char>, ir: Seq<char> },
    SetCamerasIfCurrent { rgb: Seq<char>, ir: Seq<char>, expected: CameraSelection },
    SetupIrEmitter { dry_run: bool },
    TuneCaptureMode { rounds: Option<usize>, emit_record_path: Option<Seq<char>> },
    CaptureModeStatus,
    CameraDiagnostics,
    Identify,
    SelfTest,
    Health,
    Ping,
}

impl View for Request {
    type V = RequestV;

    open spec fn view(&self) -> RequestV {
        match *self {
            Request::ListProfiles { user, structured_errors } => RequestV::ListProfiles {
                user: user@,
                structured_errors,
            },
            Request::AddScan { user, profile, scans, report_enrollment } => RequestV::AddScan {
                user: user@,
                profile: profile@,
                scans,
                report_enrollment,
            },
            Request::ForgetRecognizer { user, space } => RequestV::ForgetRecognizer {
                user: user@,
                space: space@,
            },
            Request::RemoveCameraGroup { user, group } => RequestV::RemoveCameraGroup {
                user: user@,
                group: group@,
            },
            Request::AddCameraGroup { user, new_profile, scans } => RequestV::AddCameraGroup {
                user: user@,
                new_profile: opt_text(new_profile),
                scans,
            },
            Request::DeleteScan { user, profile, scan } => RequestV::DeleteScan {
                user: user@,
                profile: profile@,
                scan: scan@,
            },
            Request::DeleteProfile { user, profile } => RequestV::DeleteProfile {
                user: user@,
                profile: profile@,
            },
            Request::RenameScan { user, profile, scan, new_name } => RequestV::RenameScan {
                user: user@,
                profile: profile@,
                scan: scan@,
                new_name: new_name@,
            },
            Request::RenameProfile { user, profile, new_name } => RequestV::RenameProfile {
                user: user@,
                profile: profile@,
                new_name: new_name@,
            },
            Request::SetRequireEyesOpen { user, on } => RequestV::SetRequireEyesOpen {
                user: user@,
                on,
            },
            Request::Enroll { user, new_profile, scans, reset } => RequestV::Enroll {
                user: user@,
                new_profile: opt_text(new_profile),
                scans,
                reset,
            },
            Request::Authenticate { user } => RequestV::Authenticate { user: user@ },
            Request::KeyringInfo { user } => RequestV::KeyringInfo { user: user@ },
            Request::KeyringMetadata { user } => RequestV::KeyringMetadata { user: user@ },
            Request::HasSealedPassword { user } => RequestV::HasSealedPassword { user: user@ },
            Request::SealPassword { user } => RequestV::SealPassword { user: user@ },
            Request::ForgetPassword { user } => RequestV::ForgetPassword { user: user@ },
            Request::ReleaseTokenForDisarm { user } => RequestV::ReleaseTokenForDisarm {
                user: user@,
            },
            Request::RecoveryStatus { user } => RequestV::RecoveryStatus { user: user@ },
            Request::RecoverySetup { user } => RequestV::RecoverySetup { user: user@ },
            Request::RecoveryForget { user } => RequestV::RecoveryForget { user: user@ },
            Request::SetCameras { rgb, ir } => RequestV::SetCameras { rgb: rgb@, ir: ir@ },
            Request::SetCamerasIfCurrent { rgb, ir, expected } => RequestV::SetCamerasIfCurrent {
                rgb: rgb@,
                ir: ir@,
                expected,
            },
            Request::SetupIrEmitter { dry_run } => RequestV::SetupIrEmitter { dry_run },
            Request::TuneCaptureMode { rounds, emit_record_path } => RequestV::TuneCaptureMode {
                rounds,
                emit_record_path: opt_text(emit_record_path),
            },
            Request::CaptureModeStatus => RequestV::CaptureModeStatus,
            Request::CameraDiagnostics => RequestV::CameraDiagnostics,
            Request::Identify => RequestV::Identify,
            Request::SelfTest => RequestV::SelfTest,
            Request::Health => RequestV::Health,
            Request::Ping => RequestV::Ping,
        }
    }
}

/// What an optional request asks.
pub open spec fn opt_request(r: Option<Request>) -> Option<RequestV> {
    match r {
        Some(q) => Some(q@),
        None => None,
    }
}

/// A request that changes what the machine trusts: it waits for the operating
/// system's approval and for the capture worker.
pub open spec fn changes_trust(r: RequestV) -> bool {
    r is Enroll || r is AddScan || r is AddCameraGroup || r is RemoveCameraGroup || r
        is RecoverySetup || r is RecoveryForget || r is DeleteProfile || r is ForgetRecognizer
}

/// How many seconds a request may take.
pub open spec fn seconds_allowed(r: RequestV) -> u64 {
    if changes_trust(r) {
        380
    } else {
        120
    }
}

/// How many seconds a request may take.
pub fn request_seconds(r: &Request) -> (n: u64)
    ensures
        n == seconds_allowed(r@),
        n == (if changes_trust(r@) {
            380u64
        } else {
            120u64
        }),
{
    match r {
        Request::Enroll { .. } => 380,
        Request::AddScan { .. } => 380,
        Request::AddCameraGroup { .. } => 380,
        Request::RemoveCameraGroup { .. } => 380,
        Request::RecoverySetup { .. } => 380,
        Request::RecoveryForget { .. } => 380,
        Request::DeleteProfile { .. } => 380,
        Request::ForgetRecognizer { .. } => 380,
        _ => 120,
    }
}

/// A request that has to be approved and captured may take longer than a ping, and
/// no request that only reads, forgets a secret or renames may.
pub proof fn only_an_approved_request_may_take_longer(r: RequestV)
    ensures
        seconds_allowed(r) == 380 || seconds_allowed(r) == 120,
        seconds_allowed(r) > seconds_allowed(RequestV::Ping) <==> (r is Enroll || r is AddScan || r
            is AddCameraGroup || r is RemoveCameraGroup || r is RecoverySetup || r
            is RecoveryForget || r is DeleteProfile || r is ForgetRecognizer),
        r is Authenticate || r is Identify || r is Health || r is ListProfiles || r is SealPassword
            || r is ForgetPassword || r is RenameProfile || r is RenameScan || r is DeleteScan || r
            is SetCameras || r is SelfTest ==> seconds_allowed(r) == 120,
{
}

} // verus!
