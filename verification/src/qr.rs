//! QR payload encoder: serializes the identifying record as compact JSON
//! with a stable key order, and turns it into an RGB raster through the
//! barcode encoder.

use vstd::prelude::*;
use vstd::string::StringSliceAdditionalSpecFns;
use vstd::utf8::encode_utf8;
use crate::error::AppError;
use crate::date::{spec_iso_bytes, push_iso_bytes};
use crate::ops::{AttendanceConfig, CfgV, Raster, RasterV};

verus! {

/// The ASCII byte of a lowercase hexadecimal digit.
pub open spec fn hex_lower_byte(d: int) -> u8 {
    if d < 10 {
        (48 + d) as u8
    } else {
        (87 + d) as u8
    }
}

/// How one byte of a JSON string body is written: quote, backslash and
/// the named control characters get two-byte escapes, other control bytes
/// a `\u00XX` escape, and everything else (UTF-8 continuations included)
/// passes through.
pub open spec fn spec_json_escape_byte(b: u8) -> Seq<u8> {
    if b == 34 {
        seq![92u8, 34u8]
    } else if b == 92 {
        seq![92u8, 92u8]
    } else if b == 8 {
        seq![92u8, 98u8]
    } else if b == 12 {
        seq![92u8, 102u8]
    } else if b == 10 {
        seq![92u8, 110u8]
    } else if b == 13 {
        seq![92u8, 114u8]
    } else if b == 9 {
        seq![92u8, 116u8]
    } else if b < 32 {
        seq![92u8, 117u8, 48u8, 48u8, hex_lower_byte(b as int / 16), hex_lower_byte(b as int % 16)]
    } else {
        seq![b]
    }
}

/// A whole JSON string body, escaped byte by byte.
pub open spec fn spec_json_escape(s: Seq<u8>) -> Seq<u8>
    decreases s.len(),
{
    if s.len() == 0 {
        Seq::empty()
    } else {
        spec_json_escape_byte(s[0]) + spec_json_escape(s.drop_first())
    }
}

/// Escaping distributes over appending one byte at the end.
pub proof fn lemma_json_escape_push(s: Seq<u8>, b: u8)
    ensures
        spec_json_escape(s.push(b)) == spec_json_escape(s) + spec_json_escape_byte(b),
    decreases s.len(),
{
    if s.len() == 0 {
        assert(s.push(b).drop_first() =~= Seq::<u8>::empty());
        assert(spec_json_escape(Seq::<u8>::empty()) =~= Seq::<u8>::empty());
        assert(s.push(b)[0] == b);
        assert(spec_json_escape(s.push(b)) == spec_json_escape_byte(b) + spec_json_escape(
            s.push(b).drop_first(),
        ));
        assert(spec_json_escape(s.push(b)) =~= spec_json_escape(s) + spec_json_escape_byte(b));
    } else {
        assert(s.push(b).drop_first() =~= s.drop_first().push(b));
        lemma_json_escape_push(s.drop_first(), b);
        assert(spec_json_escape(s.push(b)) =~= spec_json_escape(s) + spec_json_escape_byte(b));
    }
}

/// The bytes a literal piece of the payload skeleton contributes.
pub open spec fn lit_bytes(s: &str) -> Seq<u8> {
    s.spec_bytes()
}

/// Append the UTF-8 bytes of a literal skeleton piece.
fn push_lit(out: &mut Vec<u8>, s: &str)
    ensures
        final(out)@ == old(out)@ + s.spec_bytes(),
{
    let bs = s.as_bytes();
    let n = bs.len();
    let mut i: usize = 0;
    while i < n
        invariant
            n == bs@.len(),
            bs@ == s.spec_bytes(),
            i <= n,
            out@ == old(out)@ + bs@.take(i as int),
        decreases n - i,
    {
        out.push(bs[i]);
        proof {
            assert(out@ =~= old(out)@ + bs@.take(i + 1));
        }
        i = i + 1;
    }
    proof {
        assert(bs@.take(n as int) =~= bs@);
    }
}

/// Append the escaped JSON body of a field value.
fn push_json_escaped(out: &mut Vec<u8>, s: &str)
    ensures
        final(out)@ == old(out)@ + spec_json_escape(s.spec_bytes()),
{
    let bs = s.as_bytes();
    let n = bs.len();
    let mut i: usize = 0;
    while i < n
        invariant
            n == bs@.len(),
            bs@ == s.spec_bytes(),
            i <= n,
            out@ == old(out)@ + spec_json_escape(bs@.take(i as int)),
        decreases n - i,
    {
        let b = bs[i];
        proof {
            assert(bs@.take(i + 1).drop_last() =~= bs@.take(i as int));
            assert(bs@.take(i + 1) =~= bs@.take(i as int).push(b));
            lemma_json_escape_push(bs@.take(i as int), b);
        }
        if b == 34 {
            out.push(92);
            out.push(34);
        } else if b == 92 {
            out.push(92);
            out.push(92);
        } else if b == 8 {
            out.push(92);
            out.push(98);
        } else if b == 12 {
            out.push(92);
            out.push(102);
        } else if b == 10 {
            out.push(92);
            out.push(110);
        } else if b == 13 {
            out.push(92);
            out.push(114);
        } else if b == 9 {
            out.push(92);
            out.push(116);
        } else if b < 32 {
            out.push(92);
            out.push(117);
            out.push(48);
            out.push(48);
            let hi = b / 16;
            let lo = b % 16;
            out.push(if hi < 10 { 48 + hi } else { 87 + hi });
            out.push(if lo < 10 { 48 + lo } else { 87 + lo });
        } else {
            out.push(b);
        }
        proof {
            assert(out@ =~= old(out)@ + spec_json_escape(bs@.take(i + 1)));
        }
        i = i + 1;
    }
    proof {
        assert(bs@.take(n as int) =~= bs@);
    }
}

/// The serialized QR payload: one JSON object whose keys always appear in
/// the same order, so the same configuration yields byte-identical text.
pub open spec fn spec_payload_bytes(c: CfgV) -> Seq<u8> {
    lit_bytes("{\"app\":\"bridge-attendance\",\"event_id\":\"") + spec_json_escape(
        encode_utf8(c.event_id),
    ) + lit_bytes("\",\"name\":\"") + spec_json_escape(encode_utf8(c.class_name)) + lit_bytes(
        "\",\"date\":\"",
    ) + spec_iso_bytes(c.date) + lit_bytes("\",\"teacher\":\"") + spec_json_escape(
        encode_utf8(c.teacher),
    ) + lit_bytes("\"}")
}

/// Serialize the QR payload for a configuration.
pub fn qr_payload_bytes(config: &AttendanceConfig) -> (r: Vec<u8>)
    ensures
        r@ == spec_payload_bytes(config.deep_view()),
{
    let mut out: Vec<u8> = Vec::new();
    push_lit(&mut out, "{\"app\":\"bridge-attendance\",\"event_id\":\"");
    push_json_escaped(&mut out, config.event_id.as_str());
    push_lit(&mut out, "\",\"name\":\"");
    push_json_escaped(&mut out, config.class_name.as_str());
    push_lit(&mut out, "\",\"date\":\"");
    push_iso_bytes(&mut out, config.date);
    push_lit(&mut out, "\",\"teacher\":\"");
    push_json_escaped(&mut out, config.teacher.as_str());
    push_lit(&mut out, "\"}");
    proof {
        assert(out@ =~= spec_payload_bytes(config.deep_view()));
    }
    out
}

/// The payload text depends only on the four identifying fields, so two
/// generations from one configuration serialize byte-identically.
pub proof fn lemma_payload_stable(c1: CfgV, c2: CfgV)
    requires
        c1.event_id == c2.event_id,
        c1.class_name == c2.class_name,
        c1.date == c2.date,
        c1.teacher == c2.teacher,
    ensures
        spec_payload_bytes(c1) == spec_payload_bytes(c2),
{
}

/// What the barcode encoder returns for given payload bytes: nothing when
/// the payload exceeds the barcode's capacity, else the side length and
/// grayscale pixels of the rendered square raster.  The result is a
/// function of the bytes alone.
pub uninterp spec fn qr_raster_of(data: Seq<u8>) -> Option<(int, Seq<u8>)>;

/// Relies on `qrcode::QrCode::new` and its `image` renderer: encoding
/// either fails (data too long for any version) or deterministically
/// yields a square grayscale raster, one byte per pixel.
#[verifier::external_body]
fn qr_encode_gray(data: &Vec<u8>) -> (r: Result<(u32, Vec<u8>), String>)
    ensures
        r is Ok <==> qr_raster_of(data@) is Some,
        r matches Ok(g) ==> qr_raster_of(data@) == Some((g.0 as int, g.1@)) && g.1@.len() == g.0
            * g.0 && g.0 >= 1,
{
    match qrcode::QrCode::new(data.as_slice()) {
        Ok(code) => {
            let img = code.render::<image::Luma<u8>>().build();
            let side = img.width();
            Ok((side, img.into_raw()))
        },
        Err(e) => Err(e.to_string()),
    }
}

/// A grayscale raster expanded to RGB: every gray byte three times over.
pub open spec fn spec_expand_rgb(px: Seq<u8>) -> Seq<u8> {
    Seq::new(3 * px.len(), |i: int| px[i / 3])
}

/// The RGB raster the header embeds for a given payload.
pub open spec fn spec_qr_rgb(side: int, px: Seq<u8>) -> RasterV {
    RasterV { width: side, height: side, pixels: spec_expand_rgb(px) }
}

fn expand_gray_to_rgb(px: &Vec<u8>) -> (out: Vec<u8>)
    ensures
        out@ == spec_expand_rgb(px@),
{
    let n = px.len();
    let mut out: Vec<u8> = Vec::new();
    let mut i: usize = 0;
    while i < n
        invariant
            i <= n,
            n == px@.len(),
            out@.len() == 3 * i,
            forall|j: int| 0 <= j < 3 * i ==> out@[j] == px@[j / 3],
        decreases n - i,
    {
        let g = px[i];
        out.push(g);
        out.push(g);
        out.push(g);
        proof {
            assert forall|j: int| 0 <= j < 3 * (i + 1) implies out@[j] == px@[j / 3] by {
                if j >= 3 * i {
                    assert(j / 3 == i as int) by (nonlinear_arith)
                        requires
                            3 * i <= j < 3 * (i + 1),
                    ;
                }
            }
        }
        i = i + 1;
    }
    proof {
        assert(out@ =~= spec_expand_rgb(px@));
    }
    out
}

/// Encode the payload into the RGB raster placed in the header.  Fails
/// exactly when the payload cannot be represented in the barcode's
/// capacity; the failure is surfaced as `QrError`, never retried.
pub fn qr_raster(data: &Vec<u8>) -> (r: Result<Raster, AppError>)
    ensures
        r is Ok <==> qr_raster_of(data@) is Some,
        r matches Ok(img) ==> qr_raster_of(data@) matches Some(g) && img.deep_view() == spec_qr_rgb(
            g.0,
            g.1,
        ),
        r is Err ==> r->Err_0 is QrError,
{
    match qr_encode_gray(data) {
        Ok((side, gray)) => {
            let rgb = expand_gray_to_rgb(&gray);
            Ok(Raster { width: side, height: side, pixels: rgb })
        },
        Err(m) => Err(AppError::QrError(m)),
    }
}

} // verus!
