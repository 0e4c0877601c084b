//! A window of the user interface: the hash of its name, the frame it was
//! last used in, its title, kept inline, and its OS window.
use super::platform;
use fnv::FnvHasher;
use std::hash::{Hash, Hasher};
use vstd::prelude::*;
use vstd::string::StringSliceAdditionalSpecFns;
use vstd::utf8::{decode_utf8, encode_utf8_decode_utf8, encode_utf8_valid_utf8, valid_utf8};

verus! {

/// The room for a title, in bytes.
pub const MAX_TITLE_LENGTH: usize = 256;

/// The digest that the `fnv` crate's `FnvHasher`, started from its default
/// key, gives for a string fed to it by `str`'s `Hash::hash`: a function of
/// the text alone.
pub uninterp spec fn fnv_str_hash(title: Seq<char>) -> u64;

/// Hashes `title` with a default `FnvHasher` (`fnv` crate) through `str`'s
/// `Hash::hash`, and returns `Hasher::finish`. The digest is named by
/// [`fnv_str_hash`]; what `Hash::hash` feeds the hasher is not stated.
#[verifier::external_body]
fn fnv_hash_str(title: &str) -> (r: u64)
    ensures
        r == fnv_str_hash(title@),
{
    let mut hasher = FnvHasher::default();
    title.hash(&mut hasher);
    hasher.finish()
}

/// The string that `bytes` encode, through `std::str::from_utf8`: `Some`
/// exactly when the bytes are valid UTF-8, and then a string of those
/// bytes.
#[verifier::external_body]
fn str_from_utf8(bytes: &[u8]) -> (r: Option<&str>)
    ensures
        r is Some <==> valid_utf8(bytes@),
        r matches Some(s) ==> s.spec_bytes() == bytes@,
{
    std::str::from_utf8(bytes).ok()
}

/// The title hash of a digest: its low 32 bits.
pub fn title_hash_of_digest(digest: u64) -> (r: u32)
    ensures
        r == digest as u32,
{
    #[verifier::truncate]
    (digest as u32)
}

/// A window of the user interface.
#[derive(Clone, Copy)]
pub struct Window {
    pub name_hash: u32,
    pub frame_last_touched: usize,
    title: [u8; MAX_TITLE_LENGTH],
    title_length: u8,
    pub os_window: platform::Window,
}

impl Window {
    /// The bytes of the title.
    pub closed spec fn spec_title_bytes(&self) -> Seq<u8> {
        self.title@.subrange(0, self.title_length as int)
    }

    pub closed spec fn spec_name_hash(&self) -> u32 {
        self.name_hash
    }

    pub closed spec fn spec_frame_last_touched(&self) -> usize {
        self.frame_last_touched
    }

    pub closed spec fn spec_os_window(&self) -> platform::Window {
        self.os_window
    }

    /// The title.
    pub open spec fn spec_title(&self) -> Seq<char> {
        decode_utf8(self.spec_title_bytes())
    }

    /// The title is a nonempty string of valid UTF-8.
    pub closed spec fn wf(&self) -> bool {
        &&& 0 < self.title_length
        &&& valid_utf8(self.spec_title_bytes())
    }

    /// A window titled `title`, which must be 1 to 255 bytes long.
    pub fn new(title: &str, name_hash: u32, frame: usize, os_window: platform::Window) -> (r: Window)
        requires
            0 < title.spec_bytes().len() < MAX_TITLE_LENGTH,
        ensures
            r.wf(),
            r.spec_title() == title@,
            r.spec_title_bytes() == title.spec_bytes(),
            r.spec_name_hash() == name_hash,
            r.spec_frame_last_touched() == frame,
            r.spec_os_window() == os_window,
    {
        let bytes = title.as_bytes();
        let length = bytes.len();
        let mut buffer = [0u8; MAX_TITLE_LENGTH];
        let mut i: usize = 0;
        while i < length
            invariant
                0 <= i <= length,
                length == bytes@.len(),
                length < MAX_TITLE_LENGTH,
                buffer@.len() == MAX_TITLE_LENGTH,
                forall|j: int| 0 <= j < i ==> buffer@[j] == bytes@[j],
            decreases length - i,
        {
            buffer[i] = bytes[i];
            i = i + 1;
        }
        let window = Window {
            name_hash,
            frame_last_touched: frame,
            title: buffer,
            title_length: length as u8,
            os_window,
        };
        proof {
            assert(window.spec_title_bytes() =~= title.spec_bytes());
            encode_utf8_valid_utf8(title@);
            encode_utf8_decode_utf8(title@);
        }
        window
    }

    /// The hash of a title: the low 32 bits of its FNV-1a digest.
    pub fn hash_title(title: &str) -> (r: u32)
        ensures
            r == fnv_str_hash(title@) as u32,
    {
        title_hash_of_digest(fnv_hash_str(title))
    }

    /// The title.
    pub fn get_title(&self) -> (r: &str)
        requires
            self.wf(),
        ensures
            r@ == self.spec_title(),
            r.spec_bytes() == self.spec_title_bytes(),
    {
        let all = self.title.as_slice();
        let bytes = &all[0..self.title_length as usize];
        assert(bytes@ == self.spec_title_bytes());
        match str_from_utf8(bytes) {
            Some(s) => {
                proof {
                    encode_utf8_decode_utf8(s@);
                }
                s
            },
            None => vstd::pervasive::unreached(),
        }
    }
}

} // verus!
