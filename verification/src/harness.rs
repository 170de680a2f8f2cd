//! The timing harness: repeats a decode, holds every pass to the expected
//! size, and turns the totals into a report line.

use vstd::prelude::*;
use std::time::Instant;
use crate::codec::{
    decode, decoded, ends_with, iter_scale_of, label_of, wants_32_bit_color, Codec,
};
use crate::error::DecodeError;
use crate::report::{
    labelled_megapixels_line, labelled_megapixels_text, megapixels_line, megapixels_text,
    report_line, report_text,
};
use crate::throughput::{elapsed_nanos, nanos_of, rate, throughput};

verus! {

/// Why a benchmark produced no result.
#[derive(Clone, Copy, Debug, PartialEq, Eq, Structural)]
pub enum BenchError {
    /// A pass failed to decode.
    Decode(DecodeError),
    /// A pass decoded `got` bytes where `want` were expected.
    WrongNumBytes { got: u64, want: u64 },
    /// The scaled number of iterations does not fit a `u64`.
    TooManyIterations,
    /// The bytes, or the pixels, of all passes together do not fit a `u64`.
    TooManyBytes,
    /// The elapsed time in nanoseconds does not fit a `u64`.
    ClockOverflow,
    /// No time has elapsed, or the throughput does not fit a `u64`.
    NoThroughput,
    /// A report was asked for a measurement of no iterations.
    NoIterations,
}

/// What a run of passes has measured.
#[derive(Clone, Copy, Debug, PartialEq, Eq, Structural)]
pub struct Measurement {
    /// The number of passes.
    pub iters: u64,
    /// The bytes that all passes decoded.
    pub total_num_bytes: u64,
    /// The time that all passes took together, in nanoseconds.
    pub elapsed_nanos: u64,
}

/// The byte total after a pass that decoded `n` bytes where `want` were
/// expected, with `total` bytes counted before it.
pub open spec fn tallied(total: u64, n: u64, want: u64) -> Result<u64, BenchError> {
    if n != want {
        Err(BenchError::WrongNumBytes { got: n, want })
    } else if total + n > u64::MAX {
        Err(BenchError::TooManyBytes)
    } else {
        Ok((total + n) as u64)
    }
}

/// The measurement of `iters` passes with `total_num_bytes` bytes in a span
/// of `secs` whole seconds and `subsec_nanos` nanoseconds.
pub open spec fn measured(iters: u64, total_num_bytes: u64, secs: u64, subsec_nanos: u32) -> Result<
    Measurement,
    BenchError,
> {
    if nanos_of(secs, subsec_nanos) > u64::MAX {
        Err(BenchError::ClockOverflow)
    } else {
        Ok(
            Measurement {
                iters,
                total_num_bytes,
                elapsed_nanos: nanos_of(secs, subsec_nanos) as u64,
            },
        )
    }
}

/// The report on a measurement: an error if it yields no throughput, nothing
/// for a warm-up, an error if it has no iterations, else the line.
pub open spec fn reported(label: Seq<char>, name: Seq<char>, m: Measurement, warm_up: bool)
    -> Result<Option<Seq<char>>, BenchError> {
    let kb_per_s = rate(m.total_num_bytes as int, m.elapsed_nanos as int);
    if m.elapsed_nanos == 0 || kb_per_s > u64::MAX {
        Err(BenchError::NoThroughput)
    } else if warm_up {
        Ok(None)
    } else if m.iters == 0 {
        Err(BenchError::NoIterations)
    } else {
        Ok(
            Some(
                report_text(
                    label,
                    name,
                    m.iters as nat,
                    (m.elapsed_nanos / m.iters) as nat,
                    kb_per_s as nat,
                ),
            ),
        )
    }
}

/// A result of [`report`] or [`bench`] with the line as a mathematical value.
pub open spec fn line_view(r: Result<Option<String>, BenchError>) -> Result<
    Option<Seq<char>>,
    BenchError,
> {
    match r {
        Ok(Some(line)) => Ok(Some(line@)),
        Ok(None) => Ok(None),
        Err(e) => Err(e),
    }
}

/// The report on `iters` passes of `want_num_bytes` bytes each that took
/// `elapsed_nanos` nanoseconds together.
pub open spec fn reported_passes(
    codec: Codec,
    name: Seq<char>,
    iters: u64,
    want_num_bytes: u64,
    elapsed_nanos: u64,
    warm_up: bool,
) -> Result<Option<Seq<char>>, BenchError> {
    reported(
        label_of(codec),
        name,
        Measurement { iters, total_num_bytes: (iters * want_num_bytes) as u64, elapsed_nanos },
        warm_up,
    )
}

/// The report on the pixel rate of `reps` decodes of an image of `width` by
/// `height` pixels in `elapsed_nanos` nanoseconds, under the decoder's name if
/// `labelled` is set.
pub open spec fn reported_pixels(
    width: u32,
    height: u32,
    reps: u32,
    elapsed_nanos: u64,
    labelled: bool,
) -> Result<Seq<char>, BenchError> {
    let total_pixels = width * height * reps;
    let kp_per_s = rate(total_pixels, elapsed_nanos as int);
    if total_pixels > u64::MAX {
        Err(BenchError::TooManyBytes)
    } else if elapsed_nanos == 0 || kp_per_s > u64::MAX {
        Err(BenchError::NoThroughput)
    } else if labelled {
        Ok(labelled_megapixels_text(kp_per_s as nat))
    } else {
        Ok(megapixels_text(kp_per_s as nat))
    }
}

/// Whether a decode of `src` may return `pass` from some buffers of the
/// lengths `len0` and `len1`.
pub open spec fn may_decode(
    codec: Codec,
    src: Seq<u8>,
    output_32_bit_color: bool,
    len0: nat,
    len1: nat,
    pass: Result<u64, DecodeError>,
) -> bool {
    exists|before0: Seq<u8>, before1: Seq<u8>, after0: Seq<u8>, after1: Seq<u8>|
        before0.len() == len0 && before1.len() == len1 && #[trigger] decoded(
            codec,
            src,
            output_32_bit_color,
            before0,
            before1,
            after0,
            after1,
            pass,
        )
}

/// Whether a decode of `src` from the buffers `before0` and `before1` can
/// return nothing but `pass`.
pub open spec fn must_decode(
    codec: Codec,
    src: Seq<u8>,
    output_32_bit_color: bool,
    before0: Seq<u8>,
    before1: Seq<u8>,
    pass: Result<u64, DecodeError>,
) -> bool {
    forall|after0: Seq<u8>, after1: Seq<u8>, any: Result<u64, DecodeError>| #[trigger]
        decoded(codec, src, output_32_bit_color, before0, before1, after0, after1, any) ==> any
            == pass
}

/// Whether a decode of `src` from any buffers of the lengths `len0` and `len1`
/// can return nothing but `pass`.
pub open spec fn always_decodes(
    codec: Codec,
    src: Seq<u8>,
    output_32_bit_color: bool,
    len0: nat,
    len1: nat,
    pass: Result<u64, DecodeError>,
) -> bool {
    forall|
        before0: Seq<u8>,
        before1: Seq<u8>,
        after0: Seq<u8>,
        after1: Seq<u8>,
        any: Result<u64, DecodeError>,
    |
        before0.len() == len0 && before1.len() == len1 && #[trigger] decoded(
            codec,
            src,
            output_32_bit_color,
            before0,
            before1,
            after0,
            after1,
            any,
        ) ==> any == pass
}

/// The error of a result, if it is one.
pub open spec fn failure_of<T>(r: Result<T, BenchError>) -> Option<BenchError> {
    match r {
        Ok(_) => None,
        Err(e) => Some(e),
    }
}

/// How the failure of a run, or its lack, hangs on the passes: a run of
/// `iters_unscaled` times the family's scale factor decodes of `src`, each
/// held to `want_num_bytes`, that starts from the buffers `before0` and
/// `before1`.
///
/// The run fails with `TooManyIterations` exactly if the scaled count
/// overflows. A failed decode is the failure of a pass that the adapter's
/// contract admits, a wrong size is the size of such a pass, and a run that
/// ends in neither had such a pass of the expected size. A first pass that
/// can only fail, or only count another size, ends the run with that. Where
/// every pass can only count the expected size, no pass ends the run, and it
/// fails with `TooManyBytes` exactly if the bytes of all passes overflow.
pub open spec fn run_held(
    codec: Codec,
    src: Seq<u8>,
    output_32_bit_color: bool,
    before0: Seq<u8>,
    before1: Seq<u8>,
    want_num_bytes: u64,
    iters_unscaled: u64,
    failure: Option<BenchError>,
) -> bool {
    let iters = iters_unscaled * iter_scale_of(codec);
    let len0 = before0.len();
    let len1 = before1.len();
    &&& iters > u64::MAX <==> failure == Some(BenchError::TooManyIterations)
    &&& match failure {
        Some(BenchError::TooManyIterations) => true,
        Some(BenchError::Decode(e)) => may_decode(
            codec,
            src,
            output_32_bit_color,
            len0,
            len1,
            Err(e),
        ),
        Some(BenchError::WrongNumBytes { got, want }) => {
            &&& want == want_num_bytes
            &&& got != want
            &&& may_decode(codec, src, output_32_bit_color, len0, len1, Ok(got))
        },
        _ => iters >= 1 ==> may_decode(
            codec,
            src,
            output_32_bit_color,
            len0,
            len1,
            Ok(want_num_bytes),
        ),
    }
    &&& failure == Some(BenchError::TooManyBytes) ==> iters * want_num_bytes > u64::MAX
    &&& 1 <= iters <= u64::MAX ==> {
        &&& forall|e: DecodeError| #[trigger]
            must_decode(codec, src, output_32_bit_color, before0, before1, Err(e)) ==> failure
                == Some(BenchError::Decode(e))
        &&& forall|n: u64|
            n != want_num_bytes && #[trigger] must_decode(
                codec,
                src,
                output_32_bit_color,
                before0,
                before1,
                Ok(n),
            ) ==> failure == Some(BenchError::WrongNumBytes { got: n, want: want_num_bytes })
        &&& always_decodes(codec, src, output_32_bit_color, len0, len1, Ok(want_num_bytes)) ==> {
            &&& !(failure matches Some(BenchError::Decode(_)))
            &&& !(failure matches Some(BenchError::WrongNumBytes { .. }))
            &&& failure == Some(BenchError::TooManyBytes) <==> iters * want_num_bytes > u64::MAX
        }
    }
}

/// Holds one pass to the expected size and adds it to the byte total.
pub fn tally(total: u64, n: u64, want: u64) -> (r: Result<u64, BenchError>)
    ensures
        r == tallied(total, n, want),
{
    if n != want {
        return Err(BenchError::WrongNumBytes { got: n, want });
    }
    match total.checked_add(n) {
        Some(sum) => Ok(sum),
        None => Err(BenchError::TooManyBytes),
    }
}

/// Puts a measurement together from the counts of a run and the span of time
/// that the clock gave for it.
pub fn measurement(iters: u64, total_num_bytes: u64, secs: u64, subsec_nanos: u32) -> (r: Result<
    Measurement,
    BenchError,
>)
    ensures
        r == measured(iters, total_num_bytes, secs, subsec_nanos),
{
    match elapsed_nanos(secs, subsec_nanos) {
        Some(elapsed_nanos) => Ok(Measurement { iters, total_num_bytes, elapsed_nanos }),
        None => Err(BenchError::ClockOverflow),
    }
}

/// Runs `iters_unscaled` times the family's scale factor passes of the decode
/// of `src`, holds each to `want_num_bytes`, and measures the time of all of
/// them together.
///
/// A measurement that comes back counts every pass at the expected size. The
/// first pass of another size, or that fails to decode, ends the run: see
/// [`run_held`].
pub fn measure(
    codec: Codec,
    dst0: &mut [u8],
    dst1: &mut [u8],
    src: &[u8],
    output_32_bit_color: bool,
    want_num_bytes: u64,
    iters_unscaled: u64,
) -> (r: Result<Measurement, BenchError>)
    ensures
        final(dst0)@.len() == old(dst0)@.len(),
        final(dst1)@.len() == old(dst1)@.len(),
        run_held(
            codec,
            src@,
            output_32_bit_color,
            old(dst0)@,
            old(dst1)@,
            want_num_bytes,
            iters_unscaled,
            failure_of(r),
        ),
        match r {
            Ok(m) => {
                &&& m.iters == iters_unscaled * iter_scale_of(codec)
                &&& m.total_num_bytes == m.iters * want_num_bytes
            },
            Err(BenchError::NoThroughput) | Err(BenchError::NoIterations) => false,
            Err(_) => true,
        },
{
    let iters: u64 = match iters_unscaled.checked_mul(codec.iter_scale()) {
        Some(iters) => iters,
        None => {
            return Err(BenchError::TooManyIterations);
        },
    };
    let mut total_num_bytes: u64 = 0;

    let ghost mut first0: Seq<u8> = dst0@;
    let ghost mut first1: Seq<u8> = dst1@;
    let start = Instant::now();
    let mut i: u64 = 0;
    while i < iters
        invariant
            dst0@.len() == old(dst0)@.len(),
            dst1@.len() == old(dst1)@.len(),
            i <= iters,
            iters == iters_unscaled * iter_scale_of(codec),
            total_num_bytes == i * want_num_bytes,
            i == 0 ==> dst0@ == old(dst0)@ && dst1@ == old(dst1)@,
            i > 0 ==> decoded(
                codec,
                src@,
                output_32_bit_color,
                old(dst0)@,
                old(dst1)@,
                first0,
                first1,
                Ok(want_num_bytes),
            ),
        decreases iters - i,
    {
        let ghost before0 = dst0@;
        let ghost before1 = dst1@;
        let pass = decode(codec, dst0, dst1, src, output_32_bit_color);
        assert(decoded(
            codec,
            src@,
            output_32_bit_color,
            before0,
            before1,
            dst0@,
            dst1@,
            pass,
        ));
        let n = match pass {
            Ok(n) => n,
            Err(e) => {
                return Err(BenchError::Decode(e));
            },
        };
        assert((i + 1) * want_num_bytes == i * want_num_bytes + want_num_bytes)
            by (nonlinear_arith);
        match tally(total_num_bytes, n, want_num_bytes) {
            Ok(sum) => {
                total_num_bytes = sum;
            },
            Err(e) => {
                assert((i + 1) * want_num_bytes <= iters * want_num_bytes) by (nonlinear_arith)
                    requires
                        i + 1 <= iters,
                ;
                return Err(e);
            },
        }
        proof {
            if i == 0 {
                first0 = dst0@;
                first1 = dst1@;
            }
        }
        i = i + 1;
    }
    let span = start.elapsed();
    measurement(iters, total_num_bytes, span.as_secs(), span.subsec_nanos())
}

/// Turns a measurement into its report: nothing for a warm-up, else the line
/// under the family's label.
pub fn report(codec: Codec, name: &str, m: &Measurement, warm_up: bool) -> (r: Result<
    Option<String>,
    BenchError,
>)
    ensures
        line_view(r) == reported(label_of(codec), name@, *m, warm_up),
{
    let kb_per_s: u64 = match throughput(m.total_num_bytes, m.elapsed_nanos) {
        Some(kb_per_s) => kb_per_s,
        None => {
            return Err(BenchError::NoThroughput);
        },
    };
    if warm_up {
        return Ok(None);
    }
    if m.iters == 0 {
        return Err(BenchError::NoIterations);
    }
    Ok(Some(report_line(codec.label(), name, m.iters, m.elapsed_nanos / m.iters, kb_per_s)))
}

/// Reports the pixel rate of `reps` decodes of an image of `width` by `height`
/// pixels that took `elapsed_nanos` nanoseconds together, under the decoder's
/// name if `labelled` is set.
pub fn report_pixels(width: u32, height: u32, reps: u32, elapsed_nanos: u64, labelled: bool) -> (r:
    Result<String, BenchError>)
    ensures
        match r {
            Ok(line) => reported_pixels(width, height, reps, elapsed_nanos, labelled) == Ok::<
                Seq<char>,
                BenchError,
            >(line@),
            Err(e) => reported_pixels(width, height, reps, elapsed_nanos, labelled) == Err::<
                Seq<char>,
                BenchError,
            >(e),
        },
{
    assert(width * height <= 0xffff_ffff * 0xffff_ffff) by (nonlinear_arith)
        requires
            width <= 0xffff_ffff,
            height <= 0xffff_ffff,
    ;
    let pixels: u64 = width as u64 * height as u64;
    let total_pixels: u64 = match pixels.checked_mul(reps as u64) {
        Some(total_pixels) => total_pixels,
        None => {
            return Err(BenchError::TooManyBytes);
        },
    };
    let kp_per_s: u64 = match throughput(total_pixels, elapsed_nanos) {
        Some(kp_per_s) => kp_per_s,
        None => {
            return Err(BenchError::NoThroughput);
        },
    };
    if labelled {
        Ok(labelled_megapixels_line(kp_per_s))
    } else {
        Ok(megapixels_line(kp_per_s))
    }
}

/// Benchmarks one configuration: measures the scaled number of passes of the
/// decode of `src`, each held to `want_num_bytes`, and reports on them unless
/// this is a warm-up.
///
/// A GIF configuration whose name ends in `_bgra` decodes to 32-bit colour.
/// A pass that fails or has another size ends the run, as [`run_held`] says;
/// what comes back without a failed pass is the report on that many passes of
/// that size, for the time that the clock gave.
pub fn bench(
    codec: Codec,
    name: &str,
    dst0: &mut [u8],
    dst1: &mut [u8],
    src: &[u8],
    warm_up: bool,
    want_num_bytes: u64,
    iters_unscaled: u64,
) -> (r: Result<Option<String>, BenchError>)
    ensures
        final(dst0)@.len() == old(dst0)@.len(),
        final(dst1)@.len() == old(dst1)@.len(),
        run_held(
            codec,
            src@,
            codec is Gif && ends_with(name@, "_bgra"@),
            old(dst0)@,
            old(dst1)@,
            want_num_bytes,
            iters_unscaled,
            failure_of(r),
        ),
        match r {
            Err(BenchError::Decode(_)) | Err(BenchError::WrongNumBytes { .. }) | Err(
                BenchError::TooManyIterations,
            ) | Err(BenchError::TooManyBytes) | Err(BenchError::ClockOverflow) => true,
            _ => exists|elapsed_nanos: u64|
                line_view(r) == #[trigger] reported_passes(
                    codec,
                    name@,
                    (iters_unscaled * iter_scale_of(codec)) as u64,
                    want_num_bytes,
                    elapsed_nanos,
                    warm_up,
                ),
        },
{
    let output_32_bit_color = match codec {
        Codec::Gif => wants_32_bit_color(name),
        _ => false,
    };
    let m = match measure(
        codec,
        dst0,
        dst1,
        src,
        output_32_bit_color,
        want_num_bytes,
        iters_unscaled,
    ) {
        Ok(m) => m,
        Err(e) => {
            return Err(e);
        },
    };
    let r = report(codec, name, &m, warm_up);
    assert(line_view(r) == reported_passes(
        codec,
        name@,
        (iters_unscaled * iter_scale_of(codec)) as u64,
        want_num_bytes,
        m.elapsed_nanos,
        warm_up,
    ));
    r
}

} // verus!
