use vstd::prelude::*;
use vstd::string::StringExecFns;

use crate::error::{AppError, AppErrorView, AppResult};
use crate::text::{
    concat2, contains, lines, spec_contains, spec_lines, spec_trim, strings_view, trim,
};

verus! {

/// What probing the machine for input devices turned up.
#[derive(Debug, Clone)]
pub enum DeviceProbe {
    /// `arecord` is installed and listed its devices on standard output.
    ArecordListing(String),
    /// `arecord` is installed but could not be run.
    ArecordFailed(String),
    /// Only `ffmpeg` is installed.
    FfmpegOnly,
    /// Neither recorder is installed.
    NoRecorder,
}

/// The device lines of an `arecord -l` listing: every line that mentions a card, trimmed.
pub open spec fn spec_device_lines(all: Seq<Seq<char>>) -> Seq<Seq<char>>
    decreases all.len(),
{
    if all.len() == 0 {
        Seq::<Seq<char>>::empty()
    } else {
        let init = spec_device_lines(all.drop_last());
        if spec_contains(all.last(), "card "@) {
            init.push(spec_trim(all.last()))
        } else {
            init
        }
    }
}

/// The devices listed by `arecord -l`.
pub fn parse_arecord_listing(stdout: &str) -> (r: Vec<String>)
    ensures
        strings_view(r@) == spec_device_lines(spec_lines(stdout@)),
{
    let all = lines(stdout);
    let mut out: Vec<String> = Vec::new();
    let mut i: usize = 0;
    assert(strings_view(out@) =~= Seq::<Seq<char>>::empty());
    assert(strings_view(all@).take(0) =~= Seq::<Seq<char>>::empty());
    while i < all.len()
        invariant
            i <= all.len(),
            strings_view(out@) == spec_device_lines(strings_view(all@).take(i as int)),
        decreases all.len() - i,
    {
        let ghost prefix = strings_view(all@).take(i + 1);
        assert(prefix.drop_last() =~= strings_view(all@).take(i as int));
        assert(prefix.last() == all@[i as int]@);
        if contains(all[i].as_str(), "card ") {
            let ghost before = out@;
            out.push(trim(all[i].as_str()));
            assert(strings_view(out@) =~= strings_view(before).push(spec_trim(all@[i as int]@)));
        }
        i += 1;
    }
    assert(strings_view(all@).take(all.len() as int) =~= strings_view(all@));
    out
}

/// The outcome of device discovery for a probe.
pub open spec fn spec_list_input_devices(probe: DeviceProbe) -> Result<Seq<Seq<char>>, AppErrorView> {
    match probe {
        DeviceProbe::ArecordListing(stdout) => Ok(spec_device_lines(spec_lines(stdout@))),
        DeviceProbe::ArecordFailed(error) => Err(
            AppErrorView::Capture("failed to execute `arecord -l`: "@ + error@),
        ),
        DeviceProbe::FfmpegOnly => Ok(seq!["default (ffmpeg/alsa input)"@]),
        DeviceProbe::NoRecorder => Err(AppErrorView::BinaryMissing { binary: "arecord or ffmpeg"@ }),
    }
}

/// Names the input devices a probe discovered, or says why none can be used.
pub fn list_input_devices(probe: &DeviceProbe) -> (r: AppResult<Vec<String>>)
    ensures
        match spec_list_input_devices(*probe) {
            Ok(names) => r matches Ok(v) && strings_view(v@) == names,
            Err(expected) => r matches Err(e) && e@ == expected,
        },
{
    match probe {
        DeviceProbe::ArecordListing(stdout) => Ok(parse_arecord_listing(stdout.as_str())),
        DeviceProbe::ArecordFailed(error) => Err(
            AppError::Capture(concat2("failed to execute `arecord -l`: ", error.as_str())),
        ),
        DeviceProbe::FfmpegOnly => {
            let mut v: Vec<String> = Vec::new();
            v.push(String::from_str("default (ffmpeg/alsa input)"));
            assert(strings_view(v@) =~= seq!["default (ffmpeg/alsa input)"@]);
            Ok(v)
        },
        DeviceProbe::NoRecorder => Err(
            AppError::BinaryMissing { binary: String::from_str("arecord or ffmpeg") },
        ),
    }
}

/// Picks the configured device from the names the host reported: the position of the
/// first name equal to `preferred`, or none, in which case the default device is used.
pub fn select_device(names: &Vec<String>, preferred: &Option<String>) -> (r: Option<usize>)
    ensures
        match r {
            Some(i) => preferred matches Some(p) && i < names.len() && names@[i as int]@ == p@ && forall|
                j: int,
            |
                0 <= j < i ==> names@[j]@ != p@,
            None => preferred matches Some(p) ==> forall|j: int|
                0 <= j < names.len() ==> names@[j]@ != p@,
        },
{
    match preferred {
        None => None,
        Some(p) => {
            let mut i: usize = 0;
            while i < names.len()
                invariant
                    i <= names.len(),
                    *preferred == Some::<String>(*p),
                    forall|j: int| 0 <= j < i ==> names@[j]@ != p@,
                decreases names.len() - i,
            {
                if names[i] == *p {
                    return Some(i);
                }
                i += 1;
            }
            None
        },
    }
}

} // verus!
