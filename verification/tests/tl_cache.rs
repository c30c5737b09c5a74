use oxitext_raster::tl_cache::{font_data_key, FontCache, TL_CACHE_CAP};

// A minimal TrueType font (head, hhea, maxp, hmtx, loca, glyf; two glyphs).
const PLAIN_FONT: &[u8] = &[
    0x00, 0x01, 0x00, 0x00, 0x00, 0x06, 0x00, 0x00, 0x00, 0x00, 0x00, 0x00, 0x67, 0x6c, 0x79, 0x66,
    0x00, 0x00, 0x00, 0x00, 0x00, 0x00, 0x00, 0x6c, 0x00, 0x00, 0x00, 0x24, 0x68, 0x65, 0x61, 0x64,
    0x00, 0x00, 0x00, 0x00, 0x00, 0x00, 0x00, 0x90, 0x00, 0x00, 0x00, 0x36, 0x68, 0x68, 0x65, 0x61,
    0x00, 0x00, 0x00, 0x00, 0x00, 0x00, 0x00, 0xc8, 0x00, 0x00, 0x00, 0x24, 0x68, 0x6d, 0x74, 0x78,
    0x00, 0x00, 0x00, 0x00, 0x00, 0x00, 0x00, 0xec, 0x00, 0x00, 0x00, 0x08, 0x6c, 0x6f, 0x63, 0x61,
    0x00, 0x00, 0x00, 0x00, 0x00, 0x00, 0x00, 0xf4, 0x00, 0x00, 0x00, 0x06, 0x6d, 0x61, 0x78, 0x70,
    0x00, 0x00, 0x00, 0x00, 0x00, 0x00, 0x00, 0xfc, 0x00, 0x00, 0x00, 0x06, 0x00, 0x01, 0x00, 0x00,
    0x00, 0x00, 0x03, 0x20, 0x03, 0x20, 0x00, 0x03, 0x00, 0x00, 0x01, 0x01, 0x01, 0x01, 0x00, 0x00,
    0x00, 0x00, 0x03, 0x20, 0x00, 0x00, 0x00, 0x00, 0x03, 0x20, 0x00, 0x00, 0xfc, 0xe0, 0x00, 0x00,
    0x00, 0x01, 0x00, 0x00, 0x00, 0x01, 0x00, 0x00, 0x00, 0x00, 0x00, 0x00, 0x5f, 0x0f, 0x3c, 0xf5,
    0x00, 0x00, 0x03, 0xe8, 0x00, 0x00, 0x00, 0x00, 0x00, 0x00, 0x00, 0x00, 0x00, 0x00, 0x00, 0x00,
    0x00, 0x00, 0x00, 0x00, 0x00, 0x00, 0x00, 0x00, 0x03, 0x20, 0x03, 0x20, 0x00, 0x00, 0x00, 0x03,
    0x00, 0x02, 0x00, 0x00, 0x00, 0x00, 0x00, 0x00, 0x00, 0x01, 0x00, 0x00, 0x03, 0x20, 0xff, 0x38,
    0x00, 0x00, 0x03, 0xe8, 0x00, 0x00, 0x00, 0x00, 0x03, 0x20, 0x00, 0x01, 0x00, 0x00, 0x00, 0x00,
    0x00, 0x00, 0x00, 0x00, 0x00, 0x00, 0x00, 0x00, 0x00, 0x00, 0x00, 0x02, 0x03, 0xe8, 0x00, 0x00,
    0x03, 0xe8, 0x00, 0x00, 0x00, 0x00, 0x00, 0x12, 0x00, 0x12, 0x00, 0x00, 0x00, 0x00, 0x50, 0x00,
    0x00, 0x02, 0x00, 0x00,
];

#[test]
fn empty_data_returns_none() {
    let mut cache = FontCache::new(TL_CACHE_CAP);
    assert!(cache.get_or_parse(&[]).is_none());
}

#[test]
fn invalid_data_returns_none() {
    let mut cache = FontCache::new(TL_CACHE_CAP);
    assert!(cache.get_or_parse(b"not a font file at all xxxx").is_none());
}

#[test]
fn font_data_key_stable() {
    let data = b"ABCDEFGHIJKLMNOPQRSTUVWXYZ";
    let k1 = font_data_key(data);
    let k2 = font_data_key(data);
    assert_eq!(k1, k2);
}

#[test]
fn font_data_key_differs_for_different_data() {
    let k1 = font_data_key(b"AAAAAAAAAA");
    let k2 = font_data_key(b"BBBBBBBBBB");
    assert_ne!(k1, k2);
}

#[test]
fn font_data_key_is_fnv1a() {
    assert_eq!(font_data_key(b""), 0xcbf29ce484222325);
    assert_eq!(font_data_key(b"a"), 0xaf63dc4c8601ec8c);
    assert_eq!(font_data_key(b"ABCDEFGHIJKLMNOPQRSTUVWXYZ"), 0xe276b7953364d122);
}

#[test]
fn font_data_key_reads_first_64_bytes_only() {
    let mut a = vec![7u8; 100];
    let mut b = vec![7u8; 64];
    assert_eq!(font_data_key(&a), font_data_key(&b));
    a[70] = 1;
    assert_eq!(font_data_key(&a), font_data_key(&b));
    b[63] = 1;
    assert_ne!(font_data_key(&a), font_data_key(&b));
}

#[test]
fn second_lookup_returns_cached_font() {
    let mut cache = FontCache::new(TL_CACHE_CAP);
    let first = cache.get_or_parse(PLAIN_FONT).expect("font parses");
    let second = cache.get_or_parse(PLAIN_FONT).expect("font is cached");
    assert_eq!(first.into_fontdue().glyph_count(), 2);
    assert_eq!(second.into_fontdue().glyph_count(), 2);
}

#[test]
fn tiny_cache_still_answers() {
    let mut cache = FontCache::new(1);
    assert!(cache.get_or_parse(PLAIN_FONT).is_some());
    assert!(cache.get_or_parse(b"not a font file at all xxxx").is_none());
    assert!(cache.get_or_parse(PLAIN_FONT).is_some());
}

// The same font with a different (unchecked) table checksum in its first 64
// bytes, so that it gets another cache key.
fn variant(checksum_byte: u8) -> Vec<u8> {
    let mut data = PLAIN_FONT.to_vec();
    data[16] = checksum_byte;
    data
}

// Data sharing the first 64 bytes of `font` that does not parse by itself:
// a lookup finds a font only if `font`'s entry is still cached.
fn key_probe(font: &[u8]) -> Vec<u8> {
    let mut data = font[..64].to_vec();
    data.extend_from_slice(b"truncated");
    data
}

#[test]
fn variant_fonts_parse_with_distinct_keys() {
    let a = variant(1);
    let b = variant(2);
    assert_ne!(font_data_key(&a), font_data_key(&b));
    assert_ne!(font_data_key(&a), font_data_key(PLAIN_FONT));
    let mut cache = FontCache::new(4);
    assert!(cache.get_or_parse(&a).is_some());
    assert!(cache.get_or_parse(&b).is_some());
    assert!(cache.get_or_parse(&key_probe(&a)).is_some());
    assert!(FontCache::new(4).get_or_parse(&key_probe(&a)).is_none());
}

#[test]
fn full_cache_evicts_least_recently_used() {
    let (a, b, c) = (variant(1), variant(2), variant(3));
    let mut cache = FontCache::new(2);
    assert!(cache.get_or_parse(&a).is_some());
    assert!(cache.get_or_parse(&b).is_some());
    // Looking `a` up again makes it the most recently used entry ...
    assert!(cache.get_or_parse(&a).is_some());
    // ... so adding `c` to the full cache evicts `b`.
    assert!(cache.get_or_parse(&c).is_some());
    assert!(cache.get_or_parse(&key_probe(&b)).is_none());
    assert!(cache.get_or_parse(&key_probe(&a)).is_some());
    assert!(cache.get_or_parse(&key_probe(&c)).is_some());
}

#[test]
fn cache_below_capacity_keeps_every_font() {
    let (a, b, c) = (variant(1), variant(2), variant(3));
    let mut cache = FontCache::new(3);
    for font in [&a, &b, &c] {
        assert!(cache.get_or_parse(font).is_some());
    }
    for font in [&a, &b, &c] {
        assert!(cache.get_or_parse(&key_probe(font)).is_some());
    }
}
