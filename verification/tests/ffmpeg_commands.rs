use vidyffy::ffmpeg::{
    crop_args, crop_filter, even_part, scale_prop_args, scale_size_args, scale_size_filter,
    trim_args, FfmpegJob, SaveTarget,
};

fn strs(v: &[String]) -> Vec<&str> {
    v.iter().map(|s| s.as_str()).collect()
}

#[test]
fn extensions_pick_the_kind_of_file() {
    assert_eq!(SaveTarget::from_extension(Some("mkv".into())), Ok(SaveTarget::Mkv));
    assert_eq!(SaveTarget::from_extension(Some("mp4".into())), Ok(SaveTarget::Mp4));
    assert_eq!(SaveTarget::from_extension(Some("mov".into())), Ok(SaveTarget::Mov));
    assert_eq!(SaveTarget::from_extension(Some("wav".into())), Ok(SaveTarget::Wav));
    assert_eq!(SaveTarget::from_extension(Some("raw".into())), Ok(SaveTarget::Raw));
    assert_eq!(
        SaveTarget::from_extension(Some("MP4".into())),
        Err("File extension MP4 invalid for saving".to_string())
    );
    assert_eq!(
        SaveTarget::from_extension(None),
        Err("No extension provided in save path".to_string())
    );
}

#[test]
fn save_arguments() {
    assert_eq!(SaveTarget::Mkv.ffmpeg_args("in.mkv", "out.mkv"), None);
    let a = SaveTarget::Wav.ffmpeg_args("in.mkv", "out.wav").unwrap();
    assert_eq!(strs(&a), ["-i", "in.mkv", "-vn", "-c:a", "pcm_s16le", "out.wav"]);
    let a = SaveTarget::Mp3.ffmpeg_args("in.mkv", "out.mp3").unwrap();
    assert_eq!(strs(&a), ["-i", "in.mkv", "-vn", "-c:a", "libmp3lame", "-q:a", "2", "out.mp3"]);
    let a = SaveTarget::Mov.ffmpeg_args("in.mkv", "o.mov").unwrap();
    assert_eq!(
        strs(&a),
        ["-i", "in.mkv", "-c:v", "copy", "-c:a", "copy", "-movflags", "+faststart", "o.mov"]
    );
    let a = SaveTarget::Avi.ffmpeg_args("in.mkv", "o.avi").unwrap();
    assert_eq!(strs(&a), ["-i", "in.mkv", "-c:v", "mpeg4", "-q:v", "3", "-c:a", "mp3", "o.avi"]);
    let a = SaveTarget::Raw.ffmpeg_args("i", "o").unwrap();
    assert_eq!(strs(&a), ["-i", "i", "-vn", "-f", "s16le", "-c:a", "pcm_s16le", "o"]);
    let a = SaveTarget::Aiff.ffmpeg_args("i", "o").unwrap();
    assert_eq!(strs(&a)[4], "pcm_s16be");
    let a = SaveTarget::Flac.ffmpeg_args("i", "o").unwrap();
    assert_eq!(strs(&a)[4], "flac");
    let a = SaveTarget::Ogg.ffmpeg_args("i", "o").unwrap();
    assert_eq!(strs(&a)[4..7], ["libvorbis", "-q:a", "4"]);
}

#[test]
fn save_failure_messages() {
    assert_eq!(SaveTarget::Mkv.failure_message(), "Could not copy to new path");
    assert_eq!(
        SaveTarget::Mp4.failure_message(),
        "Could not save video using mp4 (default) encoding"
    );
    assert_eq!(
        SaveTarget::Mov.failure_message(),
        "Could not save video using mov (default) encoding"
    );
    assert_eq!(SaveTarget::Ogg.failure_message(), "Could not save video using ogg encoding");
}

#[test]
fn output_file_names() {
    assert_eq!(FfmpegJob::Trim.output_file_name(3), "trim_3.mkv");
    assert_eq!(FfmpegJob::Crop.output_file_name(12), "crop_12.mkv");
    assert_eq!(FfmpegJob::ScaleSize.output_file_name(0), "scale_0.mkv");
    assert_eq!(FfmpegJob::ScaleProp.output_file_name(1), "scale_1.mkv");
}

#[test]
fn job_outcomes() {
    assert_eq!(FfmpegJob::Crop.outcome(Ok(true), "o.mkv".into()), Ok("o.mkv".to_string()));
    assert_eq!(
        FfmpegJob::Trim.outcome(Ok(false), "o.mkv".into()),
        Err("ffmpeg ran during trim, but could not process. Invalid input.".to_string())
    );
    assert_eq!(
        FfmpegJob::ScaleSize.outcome(Ok(false), "o.mkv".into()),
        Err("ffmpeg ran during scale by abs size, but could not process. Invalid input.".to_string())
    );
    assert_eq!(
        FfmpegJob::ScaleProp.outcome(Err("NotFound".into()), "o.mkv".into()),
        Err("Could not start ffmpeg during proportional scale: NotFound".to_string())
    );
    assert_eq!(
        FfmpegJob::Crop.outcome(Err("E".into()), "o".into()),
        Err("Could not start ffmpeg during crop: E".to_string())
    );
}

#[test]
fn even_sizes() {
    assert_eq!(even_part(7), 6);
    assert_eq!(even_part(8), 8);
    assert_eq!(even_part(1), 0);
    assert_eq!(even_part(u32::MAX), u32::MAX - 1);
}

#[test]
fn filters_and_arguments() {
    assert_eq!(crop_filter(10, 20, 300, 200), "crop=300:200:10:20");
    assert_eq!(scale_size_filter(641, 480), "scale=640:480");
    let a = crop_args("in.mkv", 1, 2, 3, 4, "out.mkv");
    assert_eq!(
        strs(&a),
        [
            "-i", "in.mkv", "-vf", "crop=3:4:1:2", "-c:v", "libx264", "-preset", "veryfast",
            "-c:a", "copy", "-movflags", "+faststart", "out.mkv"
        ]
    );
    let a = scale_size_args("in", 5, 5, "out");
    assert_eq!(strs(&a)[3], "scale=4:4");
    let a = scale_prop_args("in", "0.5", "out");
    assert_eq!(strs(&a)[3], "scale=trunc(iw*0.5/2)*2:trunc(ih*0.5/2)*2");
    let a = trim_args("in", "1.5", "2", "out");
    assert_eq!(
        strs(&a),
        [
            "-i", "in", "-ss", "1.5", "-t", "2", "-c:v", "libx264", "-c:a", "aac", "-preset",
            "veryfast", "-movflags", "+faststart", "out"
        ]
    );
}
