//! The stations the gateway serves, and their endpoints.

use vstd::prelude::*;

verus! {

/// One of the two broadcast channels.
#[derive(Clone, Copy, Debug, PartialEq, Eq, Structural)]
pub enum Station {
    Jpop,
    Kpop,
}

impl Station {
    /// The address of the audio stream, as text.
    pub open spec fn stream_url_text(self) -> Seq<char> {
        match self {
            Station::Jpop => "https://listen.moe/stream"@,
            Station::Kpop => "https://listen.moe/kpop/stream"@,
        }
    }

    /// The address of the metadata gateway, as text.
    pub open spec fn ws_url_text(self) -> Seq<char> {
        match self {
            Station::Jpop => "wss://listen.moe/gateway_v2"@,
            Station::Kpop => "wss://listen.moe/kpop/gateway_v2"@,
        }
    }

    /// Where the station's audio is streamed from.
    pub fn stream_url(self) -> (url: &'static str)
        ensures
            url@ == self.stream_url_text(),
    {
        match self {
            Station::Jpop => "https://listen.moe/stream",
            Station::Kpop => "https://listen.moe/kpop/stream",
        }
    }

    /// Where the station's metadata gateway listens.
    pub fn ws_url(self) -> (url: &'static str)
        ensures
            url@ == self.ws_url_text(),
    {
        match self {
            Station::Jpop => "wss://listen.moe/gateway_v2",
            Station::Kpop => "wss://listen.moe/kpop/gateway_v2",
        }
    }
}

} // verus!
