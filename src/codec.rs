use vstd::prelude::*;

use crate::algorithm::ChromaprintAlgorithm;
use crate::marshal::{flag_arg, is_success, length_arg, succeeded};
use crate::session::Chromaprint;

verus! {

impl Chromaprint {
    /// The length and base64 arguments of an encode call on `raw_fingerprint`,
    /// or `None` when it holds more values than a C `int` can count.
    pub fn encode_request(raw_fingerprint: &[libc::c_int], base64: bool) -> (r: Option<
        (libc::c_int, libc::c_int),
    >)
        ensures
            r == (if raw_fingerprint@.len() <= i32::MAX {
                Some(
                    (
                        raw_fingerprint@.len() as libc::c_int,
                        if base64 { 1 as libc::c_int } else { 0 as libc::c_int },
                    ),
                )
            } else {
                None::<(libc::c_int, libc::c_int)>
            }),
    {
        match length_arg(raw_fingerprint.len()) {
            Some(len) => Some((len, flag_arg(base64))),
            None => None,
        }
    }

    /// The encoded fingerprint, given the library's answer `code` to an encode
    /// call and the bytes copied out of its buffer (`None` where nothing could
    /// be copied). Absent whenever the library failed.
    pub fn encode(code: libc::c_int, bytes: Option<Vec<u8>>) -> (r: Option<Vec<u8>>)
        ensures
            r == (if is_success(code as int) { bytes } else { None::<Vec<u8>> }),
    {
        if succeeded(code) {
            bytes
        } else {
            None
        }
    }

    /// The length and base64 arguments of a decode call on
    /// `encoded_fingerprint`, or `None` when it holds more bytes than a C
    /// `int` can count.
    pub fn decode_request(encoded_fingerprint: &[u8], base64: bool) -> (r: Option<
        (libc::c_int, libc::c_int),
    >)
        ensures
            r == (if encoded_fingerprint@.len() <= i32::MAX {
                Some(
                    (
                        encoded_fingerprint@.len() as libc::c_int,
                        if base64 { 1 as libc::c_int } else { 0 as libc::c_int },
                    ),
                )
            } else {
                None::<(libc::c_int, libc::c_int)>
            }),
    {
        match length_arg(encoded_fingerprint.len()) {
            Some(len) => Some((len, flag_arg(base64))),
            None => None,
        }
    }

    /// The decoded raw fingerprint and the variant it was encoded with, given
    /// the library's answer `code` to a decode call, the values copied out of
    /// its buffer (`None` where nothing could be copied) and the variant it
    /// reported. Absent whenever the library failed or nothing was copied.
    pub fn decode(
        code: libc::c_int,
        values: Option<Vec<libc::c_int>>,
        algorithm: ChromaprintAlgorithm,
    ) -> (r: Option<(Vec<libc::c_int>, ChromaprintAlgorithm)>)
        ensures
            r == (if is_success(code as int) && values is Some {
                Some((values->0, algorithm))
            } else {
                None::<(Vec<libc::c_int>, ChromaprintAlgorithm)>
            }),
    {
        if !succeeded(code) {
            return None;
        }
        match values {
            Some(v) => Some((v, algorithm)),
            None => None,
        }
    }
}

} // verus!
