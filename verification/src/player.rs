//! The launch command for the external stream player. Launching is
//! fire-and-forget: the library only decides the program and its arguments;
//! spawning the child process happens outside.

use vstd::prelude::*;
use crate::twitch::Stream;

verus! {

/// The external player program invoked for a chosen stream.
pub fn player_program() -> (r: &'static str)
    ensures
        r@ == "streamlink"@,
{
    "streamlink"
}

/// The three positional arguments the player is invoked with: the low-latency
/// flag, the fully qualified stream URL for the stream's channel name, and
/// the quality selector.
pub fn player_args(stream: &Stream) -> (args: Vec<String>)
    ensures
        args@.len() == 3,
        args@[0]@ == "--twitch-low-latency"@,
        args@[1]@ == "https://twitch.tv/"@ + stream.user_name@,
        args@[2]@ == "best"@,
{
    let mut url = "https://twitch.tv/".to_owned();
    url.append(stream.user_name.as_str());
    let mut args: Vec<String> = Vec::new();
    args.push("--twitch-low-latency".to_owned());
    args.push(url);
    args.push("best".to_owned());
    args
}

} // verus!
