//! The platform collectors and the dispatcher that selects one of them.

use vstd::prelude::*;

pub mod linux;
pub mod macos;
pub mod windows;

use crate::model::{ProbeError, Report};
use linux::{LinuxEvidence, linux_report_ok};
use macos::{MacEvidence, mac_report_ok};
use windows::{WinEvidence, spec_win_fatal, win_report_ok};

verus! {

/// The evidence one probe run gathered, tagged with the platform it came
/// from; exactly one variant is built per run.
pub enum Evidence {
    Linux(LinuxEvidence),
    Macos(MacEvidence),
    Windows(WinEvidence),
}

/// Forwards to the collector of the platform the evidence belongs to;
/// nothing more is decided here.
pub fn collect(ev: &Evidence) -> (r: Result<Report, ProbeError>)
    ensures
        match *ev {
            Evidence::Linux(le) => match r {
                Ok(rep) => linux_report_ok(le, rep),
                Err(_) => false,
            },
            Evidence::Macos(me) => {
                &&& match me.launch_services_xml {
                    None => r == Result::<Report, ProbeError>::Err(
                        ProbeError::LaunchServicesUnreadable,
                    ),
                    Some(b) => if macos::spec_ls_ok(b@) {
                        r is Ok
                    } else {
                        r == Result::<Report, ProbeError>::Err(ProbeError::LaunchServicesInvalid)
                    },
                }
                &&& match r {
                    Ok(rep) => mac_report_ok(me, rep),
                    Err(e) => true,
                }
            },
            Evidence::Windows(we) => match r {
                Ok(rep) => !spec_win_fatal(we.product_keys@) && win_report_ok(we, rep),
                Err(e) => spec_win_fatal(we.product_keys@) && e == ProbeError::RegistryIncomplete,
            },
        },
{
    match ev {
        Evidence::Linux(le) => Ok(linux::collect(le)),
        Evidence::Macos(me) => macos::collect(me),
        Evidence::Windows(we) => windows::collect(we),
    }
}

} // verus!
