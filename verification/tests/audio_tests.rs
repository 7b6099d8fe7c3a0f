use transcription_service::error::WhisperError;
use transcription_service::wav::{decode_pcm_samples, detect_format, parse_wav, SampleEncoding};

fn chunk(tag: &[u8; 4], body: &[u8]) -> Vec<u8> {
    let mut v = tag.to_vec();
    v.extend_from_slice(&(body.len() as u32).to_le_bytes());
    v.extend_from_slice(body);
    if body.len() % 2 == 1 {
        v.push(0);
    }
    v
}

fn fmt_body(code: u16, channels: u16, rate: u32, bits: u16) -> Vec<u8> {
    let mut f = Vec::new();
    f.extend_from_slice(&code.to_le_bytes());
    f.extend_from_slice(&channels.to_le_bytes());
    f.extend_from_slice(&rate.to_le_bytes());
    f.extend_from_slice(&(rate * channels as u32 * bits as u32 / 8).to_le_bytes());
    f.extend_from_slice(&(channels * bits / 8).to_le_bytes());
    f.extend_from_slice(&bits.to_le_bytes());
    f
}

fn riff(chunks: &[Vec<u8>]) -> Vec<u8> {
    let body: Vec<u8> = chunks.concat();
    let mut v = b"RIFF".to_vec();
    v.extend_from_slice(&((body.len() + 4) as u32).to_le_bytes());
    v.extend_from_slice(b"WAVE");
    v.extend_from_slice(&body);
    v
}

fn wav(code: u16, channels: u16, rate: u32, bits: u16, data: &[u8]) -> Vec<u8> {
    riff(&[chunk(b"fmt ", &fmt_body(code, channels, rate, bits)), chunk(b"data", data)])
}

fn invalid_detail(r: Result<transcription_service::wav::WavLayout, WhisperError>) -> String {
    match r {
        Err(WhisperError::InvalidAudio(d)) => d,
        other => panic!("expected InvalidAudio, got {:?}", other),
    }
}

#[test]
fn detect_formats() {
    assert_eq!(detect_format(&wav(1, 1, 16000, 16, &[0, 0])), "wav");
    assert_eq!(detect_format(b"ID3\x03\x00"), "mp3");
    assert_eq!(detect_format(&[0xFF, 0xFB, 0x90]), "mp3");
    assert_eq!(detect_format(&[0xFF, 0xE0]), "mp3");
    assert_eq!(detect_format(&[0xFF, 0xD0]), "unknown");
    assert_eq!(detect_format(b"OggS\x00\x02"), "ogg");
    assert_eq!(detect_format(b"\x00\x00\x00\x18ftypmp42"), "mp4");
    assert_eq!(detect_format(b"\x00\x00\x00\x18moov"), "mp4");
    assert_eq!(detect_format(b"fLaC\x00"), "flac");
    assert_eq!(detect_format(b"weba"), "webm");
    assert_eq!(detect_format(&[0x1A, 0x45, 0xDF, 0xA3, 0x01]), "webm");
    assert_eq!(detect_format(b""), "unknown");
    assert_eq!(detect_format(b"RIFF\x00\x00\x00\x00WAVX"), "unknown");
    // RIFF/WAVE needs the full 12 bytes
    assert_eq!(detect_format(b"RIFF\x00\x00\x00\x00WAV"), "unknown");
}

#[test]
fn parse_minimal_pcm16() {
    let bytes = wav(1, 1, 16000, 16, &[1, 0, 0xFF, 0xFF]);
    let l = parse_wav(&bytes).unwrap();
    assert_eq!(l.audio_format, 1);
    assert_eq!(l.num_channels, 1);
    assert_eq!(l.sample_rate, 16000);
    assert_eq!(l.bits_per_sample, 16);
    assert_eq!(l.encoding, SampleEncoding::Pcm16);
    assert_eq!(l.data_start, 44);
    assert_eq!(l.data_end, 48);
}

#[test]
fn parse_encodings() {
    let cases = [
        (1, 8, SampleEncoding::Pcm8),
        (1, 16, SampleEncoding::Pcm16),
        (1, 24, SampleEncoding::Pcm24),
        (1, 32, SampleEncoding::Pcm32),
        (3, 32, SampleEncoding::Float32),
        (3, 64, SampleEncoding::Float64),
    ];
    for (code, bits, enc) in cases {
        let l = parse_wav(&wav(code, 2, 44100, bits, &[0; 8])).unwrap();
        assert_eq!(l.encoding, enc);
        assert_eq!(l.num_channels, 2);
        assert_eq!(l.sample_rate, 44100);
    }
}

#[test]
fn parse_errors() {
    assert_eq!(invalid_detail(parse_wav(&[0u8; 43])), "Arquivo WAV muito pequeno");
    let mut bad = wav(1, 1, 16000, 16, &[0, 0]);
    bad[0] = b'X';
    assert_eq!(invalid_detail(parse_wav(&bad)), "Magic RIFF/WAVE ausente");
    let no_fmt = riff(&[chunk(b"LIST", &[0; 20]), chunk(b"data", &[0; 8])]);
    assert_eq!(invalid_detail(parse_wav(&no_fmt)), "Chunk 'fmt ' não encontrado");
    let no_data = riff(&[chunk(b"fmt ", &fmt_body(1, 1, 8000, 8)), chunk(b"LIST", &[0; 12])]);
    assert_eq!(invalid_detail(parse_wav(&no_data)), "Chunk 'data' não encontrado");
    let short_fmt = riff(&[chunk(b"fmt ", &[1, 0, 1, 0, 0x40, 0x1F, 0, 0]), chunk(b"data", &[0; 20])]);
    assert_eq!(invalid_detail(parse_wav(&short_fmt)), "Chunk fmt muito pequeno");
    assert_eq!(
        invalid_detail(parse_wav(&wav(1, 0, 16000, 16, &[0; 4]))),
        "Número de canais inválido"
    );
    assert_eq!(
        invalid_detail(parse_wav(&wav(2, 1, 16000, 16, &[0; 4]))),
        "Formato WAV não suportado: format=2 bits=16"
    );
    assert_eq!(
        invalid_detail(parse_wav(&wav(1, 1, 16000, 12, &[0; 4]))),
        "Formato WAV não suportado: format=1 bits=12"
    );
    assert_eq!(
        invalid_detail(parse_wav(&wav(65534, 1, 16000, 65535, &[0; 4]))),
        "Formato WAV não suportado: format=65534 bits=65535"
    );
}

#[test]
fn parse_skips_padded_chunks() {
    // an odd-sized chunk is followed by one pad byte
    let bytes = riff(&[
        chunk(b"LIST", &[1, 2, 3]),
        chunk(b"fmt ", &fmt_body(1, 1, 22050, 8)),
        chunk(b"data", &[10, 20, 30]),
    ]);
    let l = parse_wav(&bytes).unwrap();
    assert_eq!(l.sample_rate, 22050);
    assert_eq!(l.encoding, SampleEncoding::Pcm8);
    assert_eq!(l.data_end - l.data_start, 3);
    assert_eq!(&bytes[l.data_start..l.data_end], &[10, 20, 30]);
}

#[test]
fn parse_data_before_fmt_and_truncated_data() {
    let mut data = chunk(b"data", &[7; 10]);
    // the data chunk claims more bytes than the file holds after it
    data[4..8].copy_from_slice(&1000u32.to_le_bytes());
    let bytes = riff(&[chunk(b"fmt ", &fmt_body(1, 1, 8000, 16)), data]);
    let l = parse_wav(&bytes).unwrap();
    assert_eq!(l.data_start, 44);
    assert_eq!(l.data_end, bytes.len());
    let bytes = riff(&[chunk(b"data", &[5; 30]), chunk(b"fmt ", &fmt_body(1, 1, 8000, 8))]);
    let l = parse_wav(&bytes).unwrap();
    assert_eq!(l.data_start, 20);
    assert_eq!(l.data_end, 50);
}

#[test]
fn pcm8_values() {
    let v = decode_pcm_samples(&[0, 128, 255], 0, 3, SampleEncoding::Pcm8);
    assert_eq!(v, vec![-128, 0, 127]);
}

#[test]
fn pcm16_values_and_partial_sample() {
    let bytes = [0x01, 0x00, 0xFF, 0xFF, 0x00, 0x80, 0xFF, 0x7F, 0x12];
    let v = decode_pcm_samples(&bytes, 0, bytes.len(), SampleEncoding::Pcm16);
    assert_eq!(v, vec![1, -1, -32768, 32767]);
}

#[test]
fn pcm24_sign_extension() {
    let bytes = [0xFF, 0xFF, 0x7F, 0x00, 0x00, 0x80, 0xFF, 0xFF, 0xFF, 0x01];
    let v = decode_pcm_samples(&bytes, 0, bytes.len(), SampleEncoding::Pcm24);
    assert_eq!(v, vec![8_388_607, -8_388_608, -1]);
}

#[test]
fn pcm32_values_in_range() {
    let bytes = [0xFF, 0xFF, 0xFF, 0x7F, 0x00, 0x00, 0x00, 0x80, 9, 9];
    let v = decode_pcm_samples(&bytes, 2, bytes.len(), SampleEncoding::Pcm32);
    assert_eq!(v, vec![i32::from_le_bytes([0xFF, 0x7F, 0, 0]), i32::from_le_bytes([0, 0x80, 9, 9])]);
    let v = decode_pcm_samples(&bytes, 0, 8, SampleEncoding::Pcm32);
    assert_eq!(v, vec![i32::MAX, i32::MIN]);
}

#[test]
fn pcm_from_parsed_layout() {
    let bytes = wav(1, 1, 16000, 16, &[0x10, 0x00, 0xF0, 0xFF]);
    let l = parse_wav(&bytes).unwrap();
    let v = decode_pcm_samples(&bytes, l.data_start, l.data_end, l.encoding);
    assert_eq!(v, vec![16, -16]);
}
