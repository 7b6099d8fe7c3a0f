//! The command that turns any audio container into 16 kHz mono 16-bit PCM
//! WAV through the `ffmpeg` program: file names, arguments, and the reading
//! of its exit status.
use vstd::prelude::*;
use crate::error::WhisperError;

verus! {

/// The name of the temporary input file for a container with extension `ext`.
pub open spec fn input_file_name(ext: Seq<char>) -> Seq<char> {
    "transcritor_input."@ + ext
}

/// The name of the temporary output file.
pub open spec fn output_file_name() -> Seq<char> {
    "transcritor_output.wav"@
}

/// The arguments given to `ffmpeg`: overwrite, read `input`, resample to
/// 16000 Hz, one channel, 16-bit little-endian PCM, write `output`.
pub open spec fn ffmpeg_argument_list(input: Seq<char>, output: Seq<char>) -> Seq<Seq<char>> {
    seq![
        "-y"@,
        "-i"@,
        input,
        "-ar"@,
        "16000"@,
        "-ac"@,
        "1"@,
        "-c:a"@,
        "pcm_s16le"@,
        output,
    ]
}

/// The temporary input and output file names for a container with extension `ext`.
pub fn ffmpeg_file_names(ext: &str) -> (r: (String, String))
    ensures
        r.0@ == input_file_name(ext@),
        r.1@ == output_file_name(),
{
    let mut input = "transcritor_input.".to_owned();
    input.append(ext);
    (input, "transcritor_output.wav".to_owned())
}

/// The arguments given to `ffmpeg`; see `ffmpeg_argument_list`.
pub fn ffmpeg_arguments(input: &str, output: &str) -> (r: Vec<String>)
    ensures
        r@.map_values(|s: String| s@) == ffmpeg_argument_list(input@, output@),
{
    let mut v: Vec<String> = Vec::new();
    v.push("-y".to_owned());
    v.push("-i".to_owned());
    v.push(input.to_owned());
    v.push("-ar".to_owned());
    v.push("16000".to_owned());
    v.push("-ac".to_owned());
    v.push("1".to_owned());
    v.push("-c:a".to_owned());
    v.push("pcm_s16le".to_owned());
    v.push(output.to_owned());
    assert(v@.map_values(|s: String| s@) =~= ffmpeg_argument_list(input@, output@));
    v
}

/// The detail text when `ffmpeg` exits with failure.
pub open spec fn ffmpeg_failure_detail() -> Seq<char> {
    "ffmpeg falhou ao converter o arquivo de áudio"@
}

/// A failed `ffmpeg` run is `InvalidAudio`; a successful one lets the
/// converted file be read.
pub fn check_ffmpeg_status(success: bool) -> (r: Result<(), WhisperError>)
    ensures
        success <==> r is Ok,
        r matches Err(e) ==> (e matches WhisperError::InvalidAudio(d) && d@ == ffmpeg_failure_detail()),
{
    if success {
        Ok(())
    } else {
        Err(WhisperError::InvalidAudio("ffmpeg falhou ao converter o arquivo de áudio".to_owned()))
    }
}

} // verus!
