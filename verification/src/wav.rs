//! Container detection by magic bytes, and the RIFF/WAVE reader: the chunk
//! walk, the `fmt ` header fields, the supported sample encodings, and the
//! integer values of PCM samples.
use vstd::prelude::*;
use crate::error::WhisperError;
use crate::text::{decimal, push_decimal};

verus! {

/// Whether `b` holds the four bytes `t` at offset `at`.
pub open spec fn tag_at_spec(b: Seq<u8>, at: int, t: Seq<u8>) -> bool {
    &&& 0 <= at
    &&& at + 4 <= b.len()
    &&& b.subrange(at, at + 4) == t
}

pub open spec fn tag_riff() -> Seq<u8> { seq![0x52u8, 0x49u8, 0x46u8, 0x46u8] }
pub open spec fn tag_wave() -> Seq<u8> { seq![0x57u8, 0x41u8, 0x56u8, 0x45u8] }
pub open spec fn tag_ogg() -> Seq<u8> { seq![0x4Fu8, 0x67u8, 0x67u8, 0x53u8] }
pub open spec fn tag_ftyp() -> Seq<u8> { seq![0x66u8, 0x74u8, 0x79u8, 0x70u8] }
pub open spec fn tag_moov() -> Seq<u8> { seq![0x6Du8, 0x6Fu8, 0x6Fu8, 0x76u8] }
pub open spec fn tag_flac() -> Seq<u8> { seq![0x66u8, 0x4Cu8, 0x61u8, 0x43u8] }
pub open spec fn tag_weba() -> Seq<u8> { seq![0x77u8, 0x65u8, 0x62u8, 0x61u8] }
pub open spec fn tag_ebml() -> Seq<u8> { seq![0x1Au8, 0x45u8, 0xDFu8, 0xA3u8] }
pub open spec fn tag_fmt() -> Seq<u8> { seq![0x66u8, 0x6Du8, 0x74u8, 0x20u8] }
pub open spec fn tag_data() -> Seq<u8> { seq![0x64u8, 0x61u8, 0x74u8, 0x61u8] }

/// The container that the first bytes of a file announce.
pub open spec fn detected_format(b: Seq<u8>) -> Seq<char> {
    if b.len() >= 12 && tag_at_spec(b, 0, tag_riff()) && tag_at_spec(b, 8, tag_wave()) {
        "wav"@
    } else if b.len() >= 3 && b[0] == 0x49u8 && b[1] == 0x44u8 && b[2] == 0x33u8 {
        "mp3"@
    } else if b.len() >= 2 && b[0] == 0xFFu8 && b[1] & 0xE0u8 == 0xE0u8 {
        "mp3"@
    } else if b.len() >= 4 && tag_at_spec(b, 0, tag_ogg()) {
        "ogg"@
    } else if b.len() >= 8 && (tag_at_spec(b, 4, tag_ftyp()) || tag_at_spec(b, 4, tag_moov())) {
        "mp4"@
    } else if b.len() >= 4 && tag_at_spec(b, 0, tag_flac()) {
        "flac"@
    } else if b.len() >= 4 && tag_at_spec(b, 0, tag_weba()) {
        "webm"@
    } else if b.len() >= 4 && tag_at_spec(b, 0, tag_ebml()) {
        "webm"@
    } else {
        "unknown"@
    }
}

/// Whether `b` holds the four bytes `t0 t1 t2 t3` at offset `at`.
fn tag_at(b: &[u8], at: usize, t0: u8, t1: u8, t2: u8, t3: u8) -> (r: bool)
    ensures
        r == tag_at_spec(b@, at as int, seq![t0, t1, t2, t3]),
{
    if at > b.len() || b.len() - at < 4 {
        return false;
    }
    let r = b[at] == t0 && b[at + 1] == t1 && b[at + 2] == t2 && b[at + 3] == t3;
    assert(r == (b@.subrange(at as int, at + 4) =~= seq![t0, t1, t2, t3]));
    r
}

/// Names the container of an audio file by its magic bytes: `"wav"`,
/// `"mp3"`, `"ogg"`, `"mp4"`, `"flac"`, `"webm"` or `"unknown"`.
pub fn detect_format(bytes: &[u8]) -> (r: &'static str)
    ensures
        r@ == detected_format(bytes@),
{
    let n = bytes.len();
    if n >= 12 && tag_at(bytes, 0, 0x52, 0x49, 0x46, 0x46) && tag_at(bytes, 8, 0x57, 0x41, 0x56, 0x45) {
        return "wav";
    }
    if n >= 3 && bytes[0] == 0x49 && bytes[1] == 0x44 && bytes[2] == 0x33 {
        return "mp3";
    }
    if n >= 2 && bytes[0] == 0xFF && bytes[1] & 0xE0 == 0xE0 {
        return "mp3";
    }
    if n >= 4 && tag_at(bytes, 0, 0x4F, 0x67, 0x67, 0x53) {
        return "ogg";
    }
    if n >= 8 && (tag_at(bytes, 4, 0x66, 0x74, 0x79, 0x70) || tag_at(bytes, 4, 0x6D, 0x6F, 0x6F, 0x76)) {
        return "mp4";
    }
    if n >= 4 && tag_at(bytes, 0, 0x66, 0x4C, 0x61, 0x43) {
        return "flac";
    }
    if n >= 4 && tag_at(bytes, 0, 0x77, 0x65, 0x62, 0x61) {
        return "webm";
    }
    if n >= 4 && tag_at(bytes, 0, 0x1A, 0x45, 0xDF, 0xA3) {
        return "webm";
    }
    "unknown"
}

/// How the samples of a supported WAV file are stored.
#[derive(Clone, Copy, Debug, PartialEq, Eq, Structural)]
pub enum SampleEncoding {
    /// PCM, 8-bit unsigned.
    Pcm8,
    /// PCM, 16-bit signed little-endian.
    Pcm16,
    /// PCM, 24-bit signed little-endian.
    Pcm24,
    /// PCM, 32-bit signed little-endian.
    Pcm32,
    /// IEEE float, 32-bit little-endian.
    Float32,
    /// IEEE float, 64-bit little-endian.
    Float64,
}

/// What the header of a WAV file says, and where its sample data lies.
#[derive(Clone, Copy, Debug, PartialEq, Eq, Structural)]
pub struct WavLayout {
    pub audio_format: u16,
    pub num_channels: u16,
    pub sample_rate: u32,
    pub bits_per_sample: u16,
    pub encoding: SampleEncoding,
    /// Offset of the first byte of the `data` chunk.
    pub data_start: usize,
    /// Offset just past the last byte of the `data` chunk that the file holds.
    pub data_end: usize,
}

/// The little-endian 16-bit value at offset `i`.
pub open spec fn le16(b: Seq<u8>, i: int) -> int {
    b[i] as int + 256 * (b[i + 1] as int)
}

/// The little-endian 32-bit value at offset `i`.
pub open spec fn le32(b: Seq<u8>, i: int) -> int {
    le16(b, i) + 65536 * le16(b, i + 2)
}

/// Walks the chunks of a RIFF file from offset `pos`: each chunk is a 4-byte
/// tag and a 4-byte little-endian size, then its body, padded to an even
/// size. The last `fmt ` and `data` chunks seen so far are kept as body
/// ranges (cut at the end of the file); the walk stops once both are known,
/// or when no full chunk header is left.
pub open spec fn chunk_scan(
    b: Seq<u8>,
    pos: int,
    fmt: Option<(int, int)>,
    data: Option<(int, int)>,
) -> (Option<(int, int)>, Option<(int, int)>)
    decreases b.len() - pos,
{
    if pos < 0 || pos + 8 > b.len() {
        (fmt, data)
    } else {
        let size = le32(b, pos + 4);
        let start = pos + 8;
        let end = if start + size < b.len() { start + size } else { b.len() as int };
        let f2 = if tag_at_spec(b, pos, tag_fmt()) { Some((start, end)) } else { fmt };
        let d2 = if tag_at_spec(b, pos, tag_data()) { Some((start, end)) } else { data };
        if f2 is Some && d2 is Some {
            (f2, d2)
        } else {
            let next = start + size + size % 2;
            if next > b.len() {
                (f2, d2)
            } else {
                chunk_scan(b, next, f2, d2)
            }
        }
    }
}

/// The sample encoding of a format code and a sample width, if supported.
pub open spec fn sample_encoding(audio_format: int, bits: int) -> Option<SampleEncoding> {
    if audio_format == 1 && bits == 8 {
        Some(SampleEncoding::Pcm8)
    } else if audio_format == 1 && bits == 16 {
        Some(SampleEncoding::Pcm16)
    } else if audio_format == 1 && bits == 24 {
        Some(SampleEncoding::Pcm24)
    } else if audio_format == 1 && bits == 32 {
        Some(SampleEncoding::Pcm32)
    } else if audio_format == 3 && bits == 32 {
        Some(SampleEncoding::Float32)
    } else if audio_format == 3 && bits == 64 {
        Some(SampleEncoding::Float64)
    } else {
        None
    }
}

/// The detail text of the error for an unsupported format code and width.
pub open spec fn unsupported_detail(audio_format: int, bits: int) -> Seq<char> {
    "Formato WAV não suportado: format="@ + decimal(audio_format as nat) + " bits="@ + decimal(
        bits as nat,
    )
}

/// The layout of a WAV file, or the detail text of the error that reading
/// it gives. The checks come in this order: size (at least 44 bytes), the
/// `RIFF`/`WAVE` magic, a `fmt ` chunk, a `data` chunk, a `fmt ` body of at
/// least 16 bytes, a channel count other than 0, a supported encoding.
pub open spec fn wav_layout(b: Seq<u8>) -> Result<WavLayout, Seq<char>> {
    if b.len() < 44 {
        Err("Arquivo WAV muito pequeno"@)
    } else if !(tag_at_spec(b, 0, tag_riff()) && tag_at_spec(b, 8, tag_wave())) {
        Err("Magic RIFF/WAVE ausente"@)
    } else {
        let (f, d) = chunk_scan(b, 12, None, None);
        match f {
            None => Err("Chunk 'fmt ' não encontrado"@),
            Some((fs, fe)) => match d {
                None => Err("Chunk 'data' não encontrado"@),
                Some((ds, de)) => if fe - fs < 16 {
                    Err("Chunk fmt muito pequeno"@)
                } else if le16(b, fs + 2) == 0 {
                    Err("Número de canais inválido"@)
                } else {
                    match sample_encoding(le16(b, fs), le16(b, fs + 14)) {
                        None => Err(unsupported_detail(le16(b, fs), le16(b, fs + 14))),
                        Some(enc) => Ok(
                            WavLayout {
                                audio_format: le16(b, fs) as u16,
                                num_channels: le16(b, fs + 2) as u16,
                                sample_rate: le32(b, fs + 4) as u32,
                                bits_per_sample: le16(b, fs + 14) as u16,
                                encoding: enc,
                                data_start: ds as usize,
                                data_end: de as usize,
                            },
                        ),
                    }
                },
            },
        }
    }
}

fn read_le16(b: &[u8], i: usize) -> (r: u16)
    requires
        i + 2 <= b@.len(),
    ensures
        r as int == le16(b@, i as int),
{
    (b[i] as u16) + 256 * (b[i + 1] as u16)
}

fn read_le32(b: &[u8], i: usize) -> (r: u32)
    requires
        i + 4 <= b@.len(),
    ensures
        r as int == le32(b@, i as int),
{
    assert(b@.len() == b.len());
    let lo = read_le16(b, i) as u32;
    let hi = read_le16(b, i + 2) as u32;
    lo + 65536 * hi
}

fn invalid_audio(detail: &str) -> (r: WhisperError)
    ensures
        r matches WhisperError::InvalidAudio(d) && d@ == detail@,
{
    WhisperError::InvalidAudio(detail.to_owned())
}

/// Reads the header of a WAV file: walks its chunks for `fmt ` and `data`,
/// reads the format code, channel count, sample rate and sample width, and
/// checks that the encoding is one of the six supported. Every failure is
/// `InvalidAudio` with the detail text that `wav_layout` names.
pub fn parse_wav(bytes: &[u8]) -> (r: Result<WavLayout, WhisperError>)
    ensures
        match wav_layout(bytes@) {
            Ok(l) => r == Ok::<WavLayout, WhisperError>(l),
            Err(m) => (r matches Err(WhisperError::InvalidAudio(d)) && d@ == m),
        },
        r matches Ok(l) ==> l.data_start <= l.data_end <= bytes@.len(),
{
    let len = bytes.len();
    if len < 44 {
        return Err(invalid_audio("Arquivo WAV muito pequeno"));
    }
    if !(tag_at(bytes, 0, 0x52, 0x49, 0x46, 0x46) && tag_at(bytes, 8, 0x57, 0x41, 0x56, 0x45)) {
        return Err(invalid_audio("Magic RIFF/WAVE ausente"));
    }
    let ghost b = bytes@;
    let mut fmt: Option<(usize, usize)> = None;
    let mut data: Option<(usize, usize)> = None;
    let mut pos: usize = 12;
    let mut scanning = true;
    while scanning
        invariant
            b == bytes@,
            len == b.len(),
            pos <= len,
            scanning ==> chunk_scan(b, 12, None, None) == chunk_scan(
                b,
                pos as int,
                opt_range(fmt),
                opt_range(data),
            ),
            !scanning ==> chunk_scan(b, 12, None, None) == (opt_range(fmt), opt_range(data)),
            fmt matches Some((s, e)) ==> s <= e <= len,
            data matches Some((s, e)) ==> s <= e <= len,
        decreases len - pos + (if scanning { 1int } else { 0int }),
    {
        if len - pos < 8 {
            scanning = false;
        } else {
            let size = read_le32(bytes, pos + 4);
            let start = pos + 8;
            let end = if (size as usize) < len - start {
                start + size as usize
            } else {
                len
            };
            if tag_at(bytes, pos, 0x66, 0x6D, 0x74, 0x20) {
                fmt = Some((start, end));
            }
            if tag_at(bytes, pos, 0x64, 0x61, 0x74, 0x61) {
                data = Some((start, end));
            }
            if fmt.is_some() && data.is_some() {
                scanning = false;
            } else {
                let pad = size % 2;
                if (size as usize) > len - start || (pad as usize) > len - start - (size as usize) {
                    scanning = false;
                } else {
                    pos = start + size as usize + pad as usize;
                }
            }
        }
    }
    let (fs, fe) = match fmt {
        None => {
            return Err(invalid_audio("Chunk 'fmt ' não encontrado"));
        },
        Some(r) => r,
    };
    let (ds, de) = match data {
        None => {
            return Err(invalid_audio("Chunk 'data' não encontrado"));
        },
        Some(r) => r,
    };
    if fe - fs < 16 {
        return Err(invalid_audio("Chunk fmt muito pequeno"));
    }
    let audio_format = read_le16(bytes, fs);
    let num_channels = read_le16(bytes, fs + 2);
    let sample_rate = read_le32(bytes, fs + 4);
    let bits_per_sample = read_le16(bytes, fs + 14);
    if num_channels == 0 {
        return Err(invalid_audio("Número de canais inválido"));
    }
    let encoding = if audio_format == 1 && bits_per_sample == 8 {
        SampleEncoding::Pcm8
    } else if audio_format == 1 && bits_per_sample == 16 {
        SampleEncoding::Pcm16
    } else if audio_format == 1 && bits_per_sample == 24 {
        SampleEncoding::Pcm24
    } else if audio_format == 1 && bits_per_sample == 32 {
        SampleEncoding::Pcm32
    } else if audio_format == 3 && bits_per_sample == 32 {
        SampleEncoding::Float32
    } else if audio_format == 3 && bits_per_sample == 64 {
        SampleEncoding::Float64
    } else {
        let mut m = "Formato WAV não suportado: format=".to_owned();
        push_decimal(&mut m, audio_format as u64);
        m.append(" bits=");
        push_decimal(&mut m, bits_per_sample as u64);
        return Err(WhisperError::InvalidAudio(m));
    };
    Ok(
        WavLayout {
            audio_format,
            num_channels,
            sample_rate,
            bits_per_sample,
            encoding,
            data_start: ds,
            data_end: de,
        },
    )
}

/// The int view of an optional offset range.
pub open spec fn opt_range(o: Option<(usize, usize)>) -> Option<(int, int)> {
    match o {
        Some((s, e)) => Some((s as int, e as int)),
        None => None,
    }
}

/// Whether the encoding is one of the integer PCM encodings.
pub open spec fn is_pcm(enc: SampleEncoding) -> bool {
    match enc {
        SampleEncoding::Float32 | SampleEncoding::Float64 => false,
        _ => true,
    }
}

/// Bytes per sample.
pub open spec fn sample_width(enc: SampleEncoding) -> int {
    match enc {
        SampleEncoding::Pcm8 => 1,
        SampleEncoding::Pcm16 => 2,
        SampleEncoding::Pcm24 => 3,
        SampleEncoding::Pcm32 => 4,
        SampleEncoding::Float32 => 4,
        SampleEncoding::Float64 => 8,
    }
}

/// The integer value of the PCM sample stored at offset `k`: 8-bit samples
/// are unsigned and centred on 128; wider ones are two's-complement
/// little-endian.
pub open spec fn pcm_value(b: Seq<u8>, k: int, enc: SampleEncoding) -> int {
    match enc {
        SampleEncoding::Pcm8 => b[k] as int - 128,
        SampleEncoding::Pcm16 => le16(b, k) - (if b[k + 1] >= 128 { 65536int } else { 0int }),
        SampleEncoding::Pcm24 => le16(b, k) + 65536 * (b[k + 2] as int) - (if b[k + 2] >= 128 {
            16777216int
        } else {
            0int
        }),
        _ => le32(b, k) - (if b[k + 3] >= 128 { 4294967296int } else { 0int }),
    }
}

/// The number of whole samples in `n` bytes; a trailing partial sample is
/// left out.
pub open spec fn whole_samples(n: int, enc: SampleEncoding) -> int {
    n / sample_width(enc)
}

proof fn lemma_count(n: int, w: int, i: int)
    requires
        w > 0,
        0 <= i,
        i * w <= n < (i + 1) * w,
    ensures
        i == n / w,
{
    assert(i == n / w) by (nonlinear_arith)
        requires
            w > 0,
            0 <= i,
            i * w <= n < (i + 1) * w,
    ;
}

fn sample_at(b: &[u8], k: usize, enc: SampleEncoding) -> (r: i32)
    requires
        is_pcm(enc),
        k + sample_width(enc) <= b@.len(),
    ensures
        r as int == pcm_value(b@, k as int, enc),
{
    assert(b@.len() == b.len());
    match enc {
        SampleEncoding::Pcm8 => b[k] as i32 - 128,
        SampleEncoding::Pcm16 => {
            let v = read_le16(b, k) as i32;
            if b[k + 1] >= 128 { v - 65536 } else { v }
        },
        SampleEncoding::Pcm24 => {
            let v = read_le16(b, k) as i32 + 65536 * (b[k + 2] as i32);
            if b[k + 2] >= 128 { v - 16777216 } else { v }
        },
        _ => {
            let v = read_le32(b, k) as i64;
            if b[k + 3] >= 128 {
                (v - 4294967296) as i32
            } else {
                v as i32
            }
        },
    }
}

/// The integer values of the PCM samples in `bytes[start..end]`, in order;
/// a trailing partial sample is left out.
pub fn decode_pcm_samples(bytes: &[u8], start: usize, end: usize, enc: SampleEncoding) -> (r: Vec<i32>)
    requires
        is_pcm(enc),
        start <= end <= bytes@.len(),
    ensures
        r@.len() == whole_samples(end - start, enc),
        forall|i: int|
            0 <= i < r@.len() ==> #[trigger] r@[i] as int == pcm_value(
                bytes@,
                start + i * sample_width(enc),
                enc,
            ),
{
    let w: usize = match enc {
        SampleEncoding::Pcm8 => 1,
        SampleEncoding::Pcm16 => 2,
        SampleEncoding::Pcm24 => 3,
        _ => 4,
    };
    let mut out: Vec<i32> = Vec::new();
    let mut k: usize = start;
    while end - k >= w
        invariant
            start <= k <= end,
            end <= bytes@.len(),
            is_pcm(enc),
            w as int == sample_width(enc),
            k == start + out@.len() * w,
            forall|i: int|
                0 <= i < out@.len() ==> #[trigger] out@[i] as int == pcm_value(
                    bytes@,
                    start + i * sample_width(enc),
                    enc,
                ),
        decreases end - k,
    {
        let v = sample_at(bytes, k, enc);
        proof {
            let n = out@.len() as int;
            assert((n + 1) * (w as int) == n * (w as int) + w) by (nonlinear_arith);
        }
        out.push(v);
        k = k + w;
    }
    proof {
        let n = out@.len() as int;
        assert((n + 1) * (w as int) == n * (w as int) + w) by (nonlinear_arith);
        lemma_count(end - start, w as int, n);
    }
    out
}

/// Whether `b` starts with the RIFF/WAVE header: `RIFF`, four size bytes,
/// `WAVE`.
pub open spec fn starts_riff_wave(b: Seq<u8>) -> bool {
    &&& b.len() >= 12
    &&& b[0] == 0x52u8 && b[1] == 0x49u8 && b[2] == 0x46u8 && b[3] == 0x46u8
    &&& b[8] == 0x57u8 && b[9] == 0x41u8 && b[10] == 0x56u8 && b[11] == 0x45u8
}

/// Every file that starts with the RIFF/WAVE header is named `"wav"`,
/// whatever chunks follow (a `bext`, `JUNK` or `LIST` chunk first, or none).
pub proof fn lemma_riff_wave_is_wav(b: Seq<u8>)
    requires
        starts_riff_wave(b),
    ensures
        detected_format(b) == "wav"@,
{
    assert(b.subrange(0, 4) =~= tag_riff());
    assert(b.subrange(8, 12) =~= tag_wave());
}

/// Files that start with `OggS` or `ID3` are named `"ogg"` and `"mp3"`.
pub proof fn lemma_magic_names(b: Seq<u8>)
    ensures
        b.len() >= 4 && b[0] == 0x4Fu8 && b[1] == 0x67u8 && b[2] == 0x67u8 && b[3] == 0x53u8
            ==> detected_format(b) == "ogg"@,
        b.len() >= 3 && b[0] == 0x49u8 && b[1] == 0x44u8 && b[2] == 0x33u8 ==> detected_format(b)
            == "mp3"@,
{
    if b.len() >= 4 && b[0] == 0x4Fu8 && b[1] == 0x67u8 && b[2] == 0x67u8 && b[3] == 0x53u8 {
        assert(b.subrange(0, 4)[0] == b[0]);
        assert(b.subrange(0, 4) =~= tag_ogg());
    }
}

/// The chunk walk keeps body ranges inside the file.
pub proof fn lemma_chunk_scan_bounds(
    b: Seq<u8>,
    pos: int,
    fmt: Option<(int, int)>,
    data: Option<(int, int)>,
)
    requires
        fmt matches Some((s, e)) ==> 0 <= s <= e <= b.len(),
        data matches Some((s, e)) ==> 0 <= s <= e <= b.len(),
    ensures
        chunk_scan(b, pos, fmt, data).0 matches Some((s, e)) ==> 0 <= s <= e <= b.len(),
        chunk_scan(b, pos, fmt, data).1 matches Some((s, e)) ==> 0 <= s <= e <= b.len(),
    decreases b.len() - pos,
{
    if pos < 0 || pos + 8 > b.len() {
    } else {
        let size = le32(b, pos + 4);
        let start = pos + 8;
        let end = if start + size < b.len() { start + size } else { b.len() as int };
        let f2 = if tag_at_spec(b, pos, tag_fmt()) { Some((start, end)) } else { fmt };
        let d2 = if tag_at_spec(b, pos, tag_data()) { Some((start, end)) } else { data };
        if !(f2 is Some && d2 is Some) {
            let next = start + size + size % 2;
            if next <= b.len() {
                lemma_chunk_scan_bounds(b, next, f2, d2);
            }
        }
    }
}

/// The `fmt ` body range that the chunk walk of a file finds, if any.
pub open spec fn fmt_range(b: Seq<u8>) -> Option<(int, int)> {
    chunk_scan(b, 12, None, None).0
}

/// The `data` body range that the chunk walk of a file finds, if any.
pub open spec fn data_range(b: Seq<u8>) -> Option<(int, int)> {
    chunk_scan(b, 12, None, None).1
}

/// What a WAV file that reads gives: the first 16 bytes of its `fmt ` body
/// hold, little-endian, the format code (bytes 0-1), the channel count
/// (2-3), the 32-bit sample rate (4-7) and the sample width (14-15); the
/// result is read from those bytes, however long the `fmt ` body is beyond
/// them, and names the `data` body the walk found.
pub proof fn lemma_wav_fields(b: Seq<u8>)
    requires
        wav_layout(b) is Ok,
        b.len() <= usize::MAX,
    ensures
        ({
            let l = wav_layout(b)->Ok_0;
            let (fs, fe) = fmt_range(b)->Some_0;
            let (ds, de) = data_range(b)->Some_0;
            &&& starts_riff_wave(b)
            &&& fmt_range(b) is Some && data_range(b) is Some
            &&& 0 <= fs && fs + 16 <= fe <= b.len()
            &&& 0 <= ds <= de <= b.len()
            &&& l.audio_format as int == b[fs] as int + 256 * (b[fs + 1] as int)
            &&& l.num_channels as int == b[fs + 2] as int + 256 * (b[fs + 3] as int)
            &&& l.num_channels >= 1
            &&& l.sample_rate as int == b[fs + 4] as int + 256 * (b[fs + 5] as int) + 65536 * (b[fs
                + 6] as int) + 16777216 * (b[fs + 7] as int)
            &&& l.bits_per_sample as int == b[fs + 14] as int + 256 * (b[fs + 15] as int)
            &&& l.data_start as int == ds
            &&& l.data_end as int == de
        }),
{
    lemma_chunk_scan_bounds(b, 12, None, None);
    assert(b.subrange(0, 4) =~= tag_riff() ==> b[0] == 0x52u8 && b[1] == 0x49u8 && b[2] == 0x46u8
        && b[3] == 0x46u8) by {
        if b.subrange(0, 4) =~= tag_riff() {
            assert(b.subrange(0, 4)[0] == b[0]);
            assert(b.subrange(0, 4)[1] == b[1]);
            assert(b.subrange(0, 4)[2] == b[2]);
            assert(b.subrange(0, 4)[3] == b[3]);
        }
    }
    assert(b.subrange(8, 12) =~= tag_wave() ==> b[8] == 0x57u8 && b[9] == 0x41u8 && b[10] == 0x56u8
        && b[11] == 0x45u8) by {
        if b.subrange(8, 12) =~= tag_wave() {
            assert(b.subrange(8, 12)[0] == b[8]);
            assert(b.subrange(8, 12)[1] == b[9]);
            assert(b.subrange(8, 12)[2] == b[10]);
            assert(b.subrange(8, 12)[3] == b[11]);
        }
    }
}

/// A WAV file is accepted whenever it has the RIFF/WAVE header, at least 44
/// bytes, a `fmt ` body of 16 bytes or more (extra bytes, as in
/// WAVEFORMATEX, are allowed), a `data` chunk, at least one channel and one
/// of the supported pairs of format code and width: PCM (1) with 8, 16, 24
/// or 32 bits, IEEE float (3) with 32 or 64 bits.
pub proof fn lemma_wav_accepts(b: Seq<u8>)
    requires
        b.len() >= 44,
        starts_riff_wave(b),
        fmt_range(b) is Some,
        data_range(b) is Some,
        fmt_range(b)->Some_0.1 - fmt_range(b)->Some_0.0 >= 16,
        ({
            let fs = fmt_range(b)->Some_0.0;
            let code = b[fs] as int + 256 * (b[fs + 1] as int);
            let channels = b[fs + 2] as int + 256 * (b[fs + 3] as int);
            let bits = b[fs + 14] as int + 256 * (b[fs + 15] as int);
            &&& channels >= 1
            &&& (code == 1 && (bits == 8 || bits == 16 || bits == 24 || bits == 32)) || (code == 3
                && (bits == 32 || bits == 64))
        }),
    ensures
        wav_layout(b) is Ok,
{
    assert(b.subrange(0, 4) =~= tag_riff());
    assert(b.subrange(8, 12) =~= tag_wave());
}

} // verus!
