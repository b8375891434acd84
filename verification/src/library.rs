//! What counts as a song file.

use vstd::prelude::*;
use vstd::string::StringExecFns;
use crate::text::{
    extension_of,
    lowercased,
    path_extension,
    path_with_extension,
    to_lowercase,
    with_extension_of,
};

verus! {

/// The name of the program, as it appears in its messages.
pub const APP_NAME: &'static str = "music-cli";

/// Whether `extension`, in lowercase, is one of the audio formats that the
/// player takes: mp3, flac, wav and ogg.
pub open spec fn is_supported_extension(extension: Seq<char>) -> bool {
    ||| extension == "mp3"@
    ||| extension == "flac"@
    ||| extension == "wav"@
    ||| extension == "ogg"@
}

/// Whether a path names an audio file: whether its extension, without
/// regard to case, is a supported one.
pub open spec fn is_audio_path(path: Seq<char>) -> bool {
    match extension_of(path) {
        Some(extension) => is_supported_extension(lowercased(extension)),
        None => false,
    }
}

/// The extensions of the audio formats that the player takes.
pub fn supported_extensions() -> (extensions: Vec<&'static str>)
    ensures
        extensions@.len() == 4,
        extensions@[0]@ == "mp3"@,
        extensions@[1]@ == "flac"@,
        extensions@[2]@ == "wav"@,
        extensions@[3]@ == "ogg"@,
{
    let mut extensions: Vec<&'static str> = Vec::new();
    extensions.push("mp3");
    extensions.push("flac");
    extensions.push("wav");
    extensions.push("ogg");
    extensions
}

/// Whether `extension`, as it is written, is one of the supported ones in
/// lowercase.
pub fn is_supported(extension: &str) -> (supported: bool)
    ensures
        supported == is_supported_extension(extension@),
{
    let known = supported_extensions();
    let given = String::from_str(extension);
    let mut i: usize = 0;
    while i < known.len()
        invariant
            i <= known.len(),
            known@.len() == 4,
            known@[0]@ == "mp3"@,
            known@[1]@ == "flac"@,
            known@[2]@ == "wav"@,
            known@[3]@ == "ogg"@,
            given@ == extension@,
            forall|k: int| 0 <= k < i ==> known@[k]@ != extension@,
        decreases known.len() - i,
    {
        let candidate = String::from_str(known[i]);
        if given.eq(&candidate) {
            return true;
        }
        i += 1;
    }
    false
}

/// Whether `path` names an audio file.
pub fn is_audio_file(path: &str) -> (audio: bool)
    ensures
        audio == is_audio_path(path@),
{
    match path_extension(path) {
        Some(extension) => {
            let lower = to_lowercase(extension.as_str());
            is_supported(lower.as_str())
        },
        None => false,
    }
}

/// The name of the file in which the state is kept, inside the directory
/// of the program's settings.
pub const STATE_FILE_NAME: &'static str = "db.json";

/// Where a state file that cannot be read is put aside: beside it, with the
/// extension `json.bak`.
pub fn backup_path(file_path: &str) -> (backup: String)
    ensures
        backup@ == with_extension_of(file_path@, "json.bak"@),
{
    proof {
        reveal_strlit("json.bak");
    }
    path_with_extension(file_path, "json.bak")
}

} // verus!
