//! The command lines that are handed to ffmpeg, the file names of what it
//! writes, and what the editor reports when a run goes wrong.

use vstd::prelude::*;

use crate::decimal::{decimal, decimal_string};

verus! {

/// The texts of a list of arguments.
pub open spec fn views(v: Seq<String>) -> Seq<Seq<char>> {
    v.map_values(|s: String| s@)
}

/// Appends the argument `a`.
fn push_arg(v: &mut Vec<String>, a: &str)
    ensures
        views(final(v)@) == views(old(v)@).push(a@),
{
    v.push(a.to_owned());
    assert(views(v@) =~= views(old(v)@).push(a@));
}

/// The value of `w` with its lowest bit cleared: the largest even number
/// that is at most `w` (ffmpeg's encoders need even frame sizes).
pub open spec fn even_floor(w: u32) -> u32 {
    (w - w % 2) as u32
}

/// `w & !1`.
pub fn even_part(w: u32) -> (r: u32)
    ensures
        r == even_floor(w),
{
    let r = w & !1u32;
    assert(w & !1u32 == w - w % 2) by (bit_vector);
    r
}

/// The kinds of file that the video can be saved as, named by extension.
#[derive(Debug, Clone, Copy, PartialEq, Eq, Structural)]
pub enum SaveTarget {
    Mkv,
    Mp4,
    Mov,
    Avi,
    Aiff,
    Flac,
    Mp3,
    Ogg,
    Raw,
    Wav,
}

/// The kind of file that an extension names, if the editor can write it.
pub open spec fn target_of_extension(e: Seq<char>) -> Option<SaveTarget> {
    if e == "mkv"@ {
        Some(SaveTarget::Mkv)
    } else if e == "mp4"@ {
        Some(SaveTarget::Mp4)
    } else if e == "mov"@ {
        Some(SaveTarget::Mov)
    } else if e == "avi"@ {
        Some(SaveTarget::Avi)
    } else if e == "aiff"@ {
        Some(SaveTarget::Aiff)
    } else if e == "flac"@ {
        Some(SaveTarget::Flac)
    } else if e == "mp3"@ {
        Some(SaveTarget::Mp3)
    } else if e == "ogg"@ {
        Some(SaveTarget::Ogg)
    } else if e == "raw"@ {
        Some(SaveTarget::Raw)
    } else if e == "wav"@ {
        Some(SaveTarget::Wav)
    } else {
        None
    }
}

/// The extension that names each kind of file.
pub open spec fn extension_of(t: SaveTarget) -> Seq<char> {
    match t {
        SaveTarget::Mkv => "mkv"@,
        SaveTarget::Mp4 => "mp4"@,
        SaveTarget::Mov => "mov"@,
        SaveTarget::Avi => "avi"@,
        SaveTarget::Aiff => "aiff"@,
        SaveTarget::Flac => "flac"@,
        SaveTarget::Mp3 => "mp3"@,
        SaveTarget::Ogg => "ogg"@,
        SaveTarget::Raw => "raw"@,
        SaveTarget::Wav => "wav"@,
    }
}

/// An extension is accepted exactly when it is the name of a kind of file,
/// and it then gives that kind: every extension the save dialog offers
/// (mkv, mp4, mov, avi, aiff, flac, mp3, ogg, raw, wav) is accepted.
pub proof fn law_extensions_name_targets(e: Seq<char>, t: SaveTarget)
    ensures
        target_of_extension(e) == Some(t) <==> e == extension_of(t),
{
    reveal_strlit("mkv");
    reveal_strlit("mp4");
    reveal_strlit("mov");
    reveal_strlit("avi");
    reveal_strlit("aiff");
    reveal_strlit("flac");
    reveal_strlit("mp3");
    reveal_strlit("ogg");
    reveal_strlit("raw");
    reveal_strlit("wav");
    assert("mkv"@.len() == 3 && "mkv"@[0] == 'm' && "mkv"@[1] == 'k' && "mkv"@[2] == 'v');
    assert("mp4"@.len() == 3 && "mp4"@[0] == 'm' && "mp4"@[1] == 'p' && "mp4"@[2] == '4');
    assert("mov"@.len() == 3 && "mov"@[0] == 'm' && "mov"@[1] == 'o' && "mov"@[2] == 'v');
    assert("avi"@.len() == 3 && "avi"@[0] == 'a' && "avi"@[1] == 'v' && "avi"@[2] == 'i');
    assert("aiff"@.len() == 4 && "aiff"@[0] == 'a' && "aiff"@[1] == 'i' && "aiff"@[2] == 'f' && "aiff"@[3] == 'f');
    assert("flac"@.len() == 4 && "flac"@[0] == 'f' && "flac"@[1] == 'l' && "flac"@[2] == 'a' && "flac"@[3] == 'c');
    assert("mp3"@.len() == 3 && "mp3"@[0] == 'm' && "mp3"@[1] == 'p' && "mp3"@[2] == '3');
    assert("ogg"@.len() == 3 && "ogg"@[0] == 'o' && "ogg"@[1] == 'g' && "ogg"@[2] == 'g');
    assert("raw"@.len() == 3 && "raw"@[0] == 'r' && "raw"@[1] == 'a' && "raw"@[2] == 'w');
    assert("wav"@.len() == 3 && "wav"@[0] == 'w' && "wav"@[1] == 'a' && "wav"@[2] == 'v');
}

/// The ffmpeg arguments that save `input` as `output` in the kind of file
/// `t`; `None` for a Matroska file, which is the editor's own format and is
/// copied as it is.
pub open spec fn save_args_spec(t: SaveTarget, input: Seq<char>, output: Seq<char>) -> Option<Seq<Seq<char>>> {
    match t {
        SaveTarget::Mkv => None,
        SaveTarget::Mp4 | SaveTarget::Mov => Some(
            seq!["-i"@, input, "-c:v"@, "copy"@, "-c:a"@, "copy"@, "-movflags"@, "+faststart"@, output],
        ),
        SaveTarget::Avi => Some(
            seq!["-i"@, input, "-c:v"@, "mpeg4"@, "-q:v"@, "3"@, "-c:a"@, "mp3"@, output],
        ),
        SaveTarget::Aiff => Some(seq!["-i"@, input, "-vn"@, "-c:a"@, "pcm_s16be"@, output]),
        SaveTarget::Flac => Some(seq!["-i"@, input, "-vn"@, "-c:a"@, "flac"@, output]),
        SaveTarget::Mp3 => Some(
            seq!["-i"@, input, "-vn"@, "-c:a"@, "libmp3lame"@, "-q:a"@, "2"@, output],
        ),
        SaveTarget::Ogg => Some(
            seq!["-i"@, input, "-vn"@, "-c:a"@, "libvorbis"@, "-q:a"@, "4"@, output],
        ),
        SaveTarget::Raw => Some(
            seq!["-i"@, input, "-vn"@, "-f"@, "s16le"@, "-c:a"@, "pcm_s16le"@, output],
        ),
        SaveTarget::Wav => Some(seq!["-i"@, input, "-vn"@, "-c:a"@, "pcm_s16le"@, output]),
    }
}

/// The message shown when saving as `t` fails.
pub open spec fn save_failure_spec(t: SaveTarget) -> Seq<char> {
    match t {
        SaveTarget::Mkv => "Could not copy to new path"@,
        SaveTarget::Mp4 => "Could not save video using mp4 (default) encoding"@,
        SaveTarget::Mov => "Could not save video using mov (default) encoding"@,
        SaveTarget::Avi => "Could not save video using avi encoding"@,
        SaveTarget::Aiff => "Could not save video using aiff encoding"@,
        SaveTarget::Flac => "Could not save video using flac encoding"@,
        SaveTarget::Mp3 => "Could not save video using mp3 encoding"@,
        SaveTarget::Ogg => "Could not save video using ogg encoding"@,
        SaveTarget::Raw => "Could not save video using raw encoding"@,
        SaveTarget::Wav => "Could not save video using wav encoding"@,
    }
}

impl SaveTarget {
    /// The kind of file to write for the extension of the save path, or the
    /// message to show when there is none or the editor cannot write it.
    pub fn from_extension(ext: Option<String>) -> (r: Result<SaveTarget, String>)
        ensures
            match ext {
                None => r matches Err(m) && m@ == "No extension provided in save path"@,
                Some(e) => match target_of_extension(e@) {
                    Some(t) => r == Ok::<SaveTarget, String>(t),
                    None => r matches Err(m)
                        && m@ == "File extension "@ + e@ + " invalid for saving"@,
                },
            },
            forall|t: SaveTarget| ext is Some && ext.unwrap()@ == extension_of(t) ==> r == Ok::<SaveTarget, String>(t),
    {
        proof {
            assert forall|t: SaveTarget| ext is Some && ext.unwrap()@ == extension_of(t)
                implies target_of_extension(ext.unwrap()@) == Some(t) by {
                law_extensions_name_targets(ext.unwrap()@, t);
            }
        }
        match ext {
            None => Err("No extension provided in save path".to_owned()),
            Some(e) => {
                if e == "mkv".to_owned() {
                    Ok(SaveTarget::Mkv)
                } else if e == "mp4".to_owned() {
                    Ok(SaveTarget::Mp4)
                } else if e == "mov".to_owned() {
                    Ok(SaveTarget::Mov)
                } else if e == "avi".to_owned() {
                    Ok(SaveTarget::Avi)
                } else if e == "aiff".to_owned() {
                    Ok(SaveTarget::Aiff)
                } else if e == "flac".to_owned() {
                    Ok(SaveTarget::Flac)
                } else if e == "mp3".to_owned() {
                    Ok(SaveTarget::Mp3)
                } else if e == "ogg".to_owned() {
                    Ok(SaveTarget::Ogg)
                } else if e == "raw".to_owned() {
                    Ok(SaveTarget::Raw)
                } else if e == "wav".to_owned() {
                    Ok(SaveTarget::Wav)
                } else {
                    let mut m = "File extension ".to_owned();
                    m.append(e.as_str());
                    m.append(" invalid for saving");
                    Err(m)
                }
            },
        }
    }

    /// The ffmpeg arguments that save `input` as `output`; `None` for a
    /// Matroska file, which is copied.
    pub fn ffmpeg_args(self, input: &str, output: &str) -> (r: Option<Vec<String>>)
        ensures
            match save_args_spec(self, input@, output@) {
                None => r is None,
                Some(a) => r matches Some(v) && views(v@) == a,
            },
    {
        let mut v: Vec<String> = Vec::new();
        match self {
            SaveTarget::Mkv => {
                return None;
            },
            SaveTarget::Mp4 | SaveTarget::Mov => {
                push_arg(&mut v, "-i");
                push_arg(&mut v, input);
                push_arg(&mut v, "-c:v");
                push_arg(&mut v, "copy");
                push_arg(&mut v, "-c:a");
                push_arg(&mut v, "copy");
                push_arg(&mut v, "-movflags");
                push_arg(&mut v, "+faststart");
                push_arg(&mut v, output);
            },
            SaveTarget::Avi => {
                push_arg(&mut v, "-i");
                push_arg(&mut v, input);
                push_arg(&mut v, "-c:v");
                push_arg(&mut v, "mpeg4");
                push_arg(&mut v, "-q:v");
                push_arg(&mut v, "3");
                push_arg(&mut v, "-c:a");
                push_arg(&mut v, "mp3");
                push_arg(&mut v, output);
            },
            SaveTarget::Aiff => {
                push_arg(&mut v, "-i");
                push_arg(&mut v, input);
                push_arg(&mut v, "-vn");
                push_arg(&mut v, "-c:a");
                push_arg(&mut v, "pcm_s16be");
                push_arg(&mut v, output);
            },
            SaveTarget::Flac => {
                push_arg(&mut v, "-i");
                push_arg(&mut v, input);
                push_arg(&mut v, "-vn");
                push_arg(&mut v, "-c:a");
                push_arg(&mut v, "flac");
                push_arg(&mut v, output);
            },
            SaveTarget::Mp3 => {
                push_arg(&mut v, "-i");
                push_arg(&mut v, input);
                push_arg(&mut v, "-vn");
                push_arg(&mut v, "-c:a");
                push_arg(&mut v, "libmp3lame");
                push_arg(&mut v, "-q:a");
                push_arg(&mut v, "2");
                push_arg(&mut v, output);
            },
            SaveTarget::Ogg => {
                push_arg(&mut v, "-i");
                push_arg(&mut v, input);
                push_arg(&mut v, "-vn");
                push_arg(&mut v, "-c:a");
                push_arg(&mut v, "libvorbis");
                push_arg(&mut v, "-q:a");
                push_arg(&mut v, "4");
                push_arg(&mut v, output);
            },
            SaveTarget::Raw => {
                push_arg(&mut v, "-i");
                push_arg(&mut v, input);
                push_arg(&mut v, "-vn");
                push_arg(&mut v, "-f");
                push_arg(&mut v, "s16le");
                push_arg(&mut v, "-c:a");
                push_arg(&mut v, "pcm_s16le");
                push_arg(&mut v, output);
            },
            SaveTarget::Wav => {
                push_arg(&mut v, "-i");
                push_arg(&mut v, input);
                push_arg(&mut v, "-vn");
                push_arg(&mut v, "-c:a");
                push_arg(&mut v, "pcm_s16le");
                push_arg(&mut v, output);
            },
        }
        assert(views(v@) =~= save_args_spec(self, input@, output@).unwrap());
        Some(v)
    }

    /// The message shown when saving as this kind of file fails.
    pub fn failure_message(self) -> (r: String)
        ensures
            r@ == save_failure_spec(self),
    {
        match self {
            SaveTarget::Mkv => "Could not copy to new path".to_owned(),
            SaveTarget::Mp4 => "Could not save video using mp4 (default) encoding".to_owned(),
            SaveTarget::Mov => "Could not save video using mov (default) encoding".to_owned(),
            SaveTarget::Avi => "Could not save video using avi encoding".to_owned(),
            SaveTarget::Aiff => "Could not save video using aiff encoding".to_owned(),
            SaveTarget::Flac => "Could not save video using flac encoding".to_owned(),
            SaveTarget::Mp3 => "Could not save video using mp3 encoding".to_owned(),
            SaveTarget::Ogg => "Could not save video using ogg encoding".to_owned(),
            SaveTarget::Raw => "Could not save video using raw encoding".to_owned(),
            SaveTarget::Wav => "Could not save video using wav encoding".to_owned(),
        }
    }
}


/// The operations that re-encode the video into a new file of the pipeline.
#[derive(Debug, Clone, Copy, PartialEq, Eq, Structural)]
pub enum FfmpegJob {
    Trim,
    Crop,
    ScaleSize,
    ScaleProp,
}

/// The name of the file that `job` writes as pipeline step `step`.
pub open spec fn output_name_spec(job: FfmpegJob, step: nat) -> Seq<char> {
    let prefix = match job {
        FfmpegJob::Trim => "trim_"@,
        FfmpegJob::Crop => "crop_"@,
        FfmpegJob::ScaleSize | FfmpegJob::ScaleProp => "scale_"@,
    };
    prefix + decimal(step) + ".mkv"@
}

/// The words that name `job` in the message for an ffmpeg that did not start.
pub open spec fn start_failure_spec(job: FfmpegJob, err: Seq<char>) -> Seq<char> {
    let during = match job {
        FfmpegJob::Trim => "trim"@,
        FfmpegJob::Crop => "crop"@,
        FfmpegJob::ScaleSize => "absolute scale"@,
        FfmpegJob::ScaleProp => "proportional scale"@,
    };
    "Could not start ffmpeg during "@ + during + ": "@ + err
}

/// The message for an ffmpeg that ran but failed.
pub open spec fn run_failure_spec(job: FfmpegJob) -> Seq<char> {
    match job {
        FfmpegJob::Trim => "ffmpeg ran during trim, but could not process. Invalid input."@,
        FfmpegJob::Crop => "ffmpeg ran during crop, but could not process. Invalid input."@,
        FfmpegJob::ScaleSize => "ffmpeg ran during scale by abs size, but could not process. Invalid input."@,
        FfmpegJob::ScaleProp => "ffmpeg ran during scale by proportion, but could not process. Invalid input."@,
    }
}

/// The arguments of a re-encoding run that applies the video filter `filter`.
pub open spec fn filter_args_spec(input: Seq<char>, filter: Seq<char>, output: Seq<char>) -> Seq<Seq<char>> {
    seq![
        "-i"@, input, "-vf"@, filter, "-c:v"@, "libx264"@, "-preset"@, "veryfast"@,
        "-c:a"@, "copy"@, "-movflags"@, "+faststart"@, output,
    ]
}

/// The arguments of a trim run from `start` for `duration` (both written in seconds).
pub open spec fn trim_args_spec(input: Seq<char>, start: Seq<char>, duration: Seq<char>, output: Seq<char>) -> Seq<Seq<char>> {
    seq![
        "-i"@, input, "-ss"@, start, "-t"@, duration, "-c:v"@, "libx264"@, "-c:a"@, "aac"@,
        "-preset"@, "veryfast"@, "-movflags"@, "+faststart"@, output,
    ]
}

/// The crop filter of a `width` by `height` rectangle whose top left pixel is `(x, y)`.
pub open spec fn crop_filter_spec(x: u32, y: u32, width: u32, height: u32) -> Seq<char> {
    "crop="@ + decimal(width as nat) + ":"@ + decimal(height as nat) + ":"@ + decimal(x as nat)
        + ":"@ + decimal(y as nat)
}

/// The scale filter to a frame of `width` by `height`, each made even.
pub open spec fn scale_size_filter_spec(width: u32, height: u32) -> Seq<char> {
    "scale="@ + decimal(even_floor(width) as nat) + ":"@ + decimal(even_floor(height) as nat)
}

/// The scale filter by the factor written `factor`, each side rounded down to an even size.
pub open spec fn scale_prop_filter_spec(factor: Seq<char>) -> Seq<char> {
    "scale=trunc(iw*"@ + factor + "/2)*2:trunc(ih*"@ + factor + "/2)*2"@
}

impl FfmpegJob {
    /// The name of the file that the job writes as pipeline step `step`.
    pub fn output_file_name(self, step: usize) -> (r: String)
        ensures
            r@ == output_name_spec(self, step as nat),
    {
        let mut r = match self {
            FfmpegJob::Trim => "trim_".to_owned(),
            FfmpegJob::Crop => "crop_".to_owned(),
            FfmpegJob::ScaleSize | FfmpegJob::ScaleProp => "scale_".to_owned(),
        };
        r.append(decimal_string(step as u64).as_str());
        r.append(".mkv");
        r
    }

    /// What the job gives, from how the ffmpeg run went: `Err(e)` where it
    /// could not be started (`e` says why), `Ok(true)` where it ran and
    /// succeeded, `Ok(false)` where it ran and failed.
    pub fn outcome(self, launched: Result<bool, String>, output_path: String) -> (r: Result<String, String>)
        ensures
            match launched {
                Ok(true) => r == Ok::<String, String>(output_path),
                Ok(false) => r matches Err(m) && m@ == run_failure_spec(self),
                Err(e) => r matches Err(m) && m@ == start_failure_spec(self, e@),
            },
    {
        match launched {
            Ok(true) => Ok(output_path),
            Ok(false) => {
                let m = match self {
                    FfmpegJob::Trim => "ffmpeg ran during trim, but could not process. Invalid input.".to_owned(),
                    FfmpegJob::Crop => "ffmpeg ran during crop, but could not process. Invalid input.".to_owned(),
                    FfmpegJob::ScaleSize => "ffmpeg ran during scale by abs size, but could not process. Invalid input.".to_owned(),
                    FfmpegJob::ScaleProp => "ffmpeg ran during scale by proportion, but could not process. Invalid input.".to_owned(),
                };
                Err(m)
            },
            Err(e) => {
                let mut m = "Could not start ffmpeg during ".to_owned();
                match self {
                    FfmpegJob::Trim => m.append("trim"),
                    FfmpegJob::Crop => m.append("crop"),
                    FfmpegJob::ScaleSize => m.append("absolute scale"),
                    FfmpegJob::ScaleProp => m.append("proportional scale"),
                }
                m.append(": ");
                m.append(e.as_str());
                Err(m)
            },
        }
    }
}

/// The arguments of a re-encoding run with the video filter `filter`.
fn filter_args(input: &str, filter: &str, output: &str) -> (r: Vec<String>)
    ensures
        views(r@) == filter_args_spec(input@, filter@, output@),
{
    let mut v: Vec<String> = Vec::new();
    push_arg(&mut v, "-i");
    push_arg(&mut v, input);
    push_arg(&mut v, "-vf");
    push_arg(&mut v, filter);
    push_arg(&mut v, "-c:v");
    push_arg(&mut v, "libx264");
    push_arg(&mut v, "-preset");
    push_arg(&mut v, "veryfast");
    push_arg(&mut v, "-c:a");
    push_arg(&mut v, "copy");
    push_arg(&mut v, "-movflags");
    push_arg(&mut v, "+faststart");
    push_arg(&mut v, output);
    assert(views(v@) =~= filter_args_spec(input@, filter@, output@));
    v
}

/// The arguments that cut `input` to the part from `start` lasting
/// `duration` (both written in seconds) and write it to `output`.
pub fn trim_args(input: &str, start: &str, duration: &str, output: &str) -> (r: Vec<String>)
    ensures
        views(r@) == trim_args_spec(input@, start@, duration@, output@),
{
    let mut v: Vec<String> = Vec::new();
    push_arg(&mut v, "-i");
    push_arg(&mut v, input);
    push_arg(&mut v, "-ss");
    push_arg(&mut v, start);
    push_arg(&mut v, "-t");
    push_arg(&mut v, duration);
    push_arg(&mut v, "-c:v");
    push_arg(&mut v, "libx264");
    push_arg(&mut v, "-c:a");
    push_arg(&mut v, "aac");
    push_arg(&mut v, "-preset");
    push_arg(&mut v, "veryfast");
    push_arg(&mut v, "-movflags");
    push_arg(&mut v, "+faststart");
    push_arg(&mut v, output);
    assert(views(v@) =~= trim_args_spec(input@, start@, duration@, output@));
    v
}

/// The crop filter of a `width` by `height` rectangle at `(x_left, y_top)`.
pub fn crop_filter(x_left: u32, y_top: u32, width: u32, height: u32) -> (r: String)
    ensures
        r@ == crop_filter_spec(x_left, y_top, width, height),
{
    let mut f = "crop=".to_owned();
    f.append(decimal_string(width as u64).as_str());
    f.append(":");
    f.append(decimal_string(height as u64).as_str());
    f.append(":");
    f.append(decimal_string(x_left as u64).as_str());
    f.append(":");
    f.append(decimal_string(y_top as u64).as_str());
    f
}

/// The arguments that crop `input` to the rectangle and write it to `output`.
pub fn crop_args(input: &str, x_left: u32, y_top: u32, width: u32, height: u32, output: &str) -> (r: Vec<String>)
    ensures
        views(r@) == filter_args_spec(input@, crop_filter_spec(x_left, y_top, width, height), output@),
{
    let filter = crop_filter(x_left, y_top, width, height);
    filter_args(input, filter.as_str(), output)
}

/// The scale filter to `new_width` by `new_height`, each made even.
pub fn scale_size_filter(new_width: u32, new_height: u32) -> (r: String)
    ensures
        r@ == scale_size_filter_spec(new_width, new_height),
{
    let even_width = even_part(new_width);
    let even_height = even_part(new_height);
    let mut f = "scale=".to_owned();
    f.append(decimal_string(even_width as u64).as_str());
    f.append(":");
    f.append(decimal_string(even_height as u64).as_str());
    f
}

/// The arguments that scale `input` to `new_width` by `new_height` (each
/// made even) and write it to `output`.
pub fn scale_size_args(input: &str, new_width: u32, new_height: u32, output: &str) -> (r: Vec<String>)
    ensures
        views(r@) == filter_args_spec(input@, scale_size_filter_spec(new_width, new_height), output@),
{
    let filter = scale_size_filter(new_width, new_height);
    filter_args(input, filter.as_str(), output)
}

/// The scale filter by the factor written `factor`.
pub fn scale_prop_filter(factor: &str) -> (r: String)
    ensures
        r@ == scale_prop_filter_spec(factor@),
{
    let mut f = "scale=trunc(iw*".to_owned();
    f.append(factor);
    f.append("/2)*2:trunc(ih*");
    f.append(factor);
    f.append("/2)*2");
    f
}

/// The arguments that scale `input` by the factor written `factor` and
/// write it to `output`.
pub fn scale_prop_args(input: &str, factor: &str, output: &str) -> (r: Vec<String>)
    ensures
        views(r@) == filter_args_spec(input@, scale_prop_filter_spec(factor@), output@),
{
    let filter = scale_prop_filter(factor);
    filter_args(input, filter.as_str(), output)
}

} // verus!
