//! The audio section of the configuration file and its defaults.
use vstd::prelude::*;

verus! {

/// The audio settings.
#[derive(Debug, Clone)]
pub struct Audio {
    pub format: String,
    pub cache_limit_size: String,
    pub bitrate: u32,
    pub initial_volume: u16,
}

/// The sample format used where the file names none.
pub fn default_audio_format() -> (r: String)
    ensures
        r@ == "S16"@,
{
    String::from_str("S16")
}

/// The cache size limit used where the file names none.
pub fn default_cache_limit_size() -> (r: String)
    ensures
        r@ == "2G"@,
{
    String::from_str("2G")
}

/// The bitrate in kbit/s used where the file names none.
pub fn default_bitrate() -> (r: u32)
    ensures
        r == 160,
{
    160
}

/// The initial volume used where the file names none.
pub fn default_initial_volume() -> (r: u16)
    ensures
        r == 50,
{
    50
}

impl Default for Audio {
    fn default() -> (r: Audio)
        ensures
            r.format@ == "S16"@,
            r.cache_limit_size@ == "2G"@,
            r.bitrate == 160,
            r.initial_volume == 50,
    {
        Audio {
            format: default_audio_format(),
            cache_limit_size: default_cache_limit_size(),
            bitrate: default_bitrate(),
            initial_volume: default_initial_volume(),
        }
    }
}

} // verus!
