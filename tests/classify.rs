use file_fetcher::cache_setting::CacheSetting;
use file_fetcher::decode::{detect_charset, get_source_from_bytes, strip_shebang, DecodeError};
use file_fetcher::fetcher::{get_validated_scheme, FetchError};
use file_fetcher::media::{map_content_type, media_type_from_path, media_type_of_mime, MediaType};
use file_fetcher::specifier::Specifier;

fn spec(s: &str) -> Specifier {
    Specifier::parse(s).unwrap()
}

fn utf16le(text: &str) -> Vec<u8> {
    let mut out = vec![0xFF, 0xFE];
    for unit in text.encode_utf16() {
        out.extend_from_slice(&unit.to_le_bytes());
    }
    out
}

fn utf16be(text: &str) -> Vec<u8> {
    let mut out = vec![0xFE, 0xFF];
    for unit in text.encode_utf16() {
        out.extend_from_slice(&unit.to_be_bytes());
    }
    out
}

#[test]
fn test_get_validated_scheme() {
    let fixtures = vec![
        ("https://deno.land/x/mod.ts", true, "https"),
        ("http://deno.land/x/mod.ts", true, "http"),
        ("file:///a/b/c.ts", true, "file"),
        ("file:///C:/a/b/c.ts", true, "file"),
        ("ftp://a/b/c.ts", false, ""),
        ("mailto:dino@deno.land", false, ""),
    ];
    for (specifier, is_ok, expected) in fixtures {
        let specifier = spec(specifier);
        let actual = get_validated_scheme(&specifier);
        assert_eq!(actual.is_ok(), is_ok);
        if is_ok {
            assert_eq!(actual.unwrap(), expected);
        }
    }
}

#[test]
fn unsupported_scheme_names_scheme_and_specifier() {
    match get_validated_scheme(&spec("ftp://a/b/c.ts")) {
        Err(FetchError::UnsupportedScheme { scheme, specifier }) => {
            assert_eq!(scheme, "ftp");
            assert_eq!(specifier, "ftp://a/b/c.ts");
        }
        other => panic!("unexpected {:?}", other),
    }
}

#[test]
fn test_strip_shebang() {
    let value = "#!/usr/bin/env deno\n\nconsole.log(\"hello deno!\");\n".to_string();
    assert_eq!(strip_shebang(value), "\nconsole.log(\"hello deno!\");\n");
}

#[test]
fn strip_shebang_examples() {
    assert_eq!(strip_shebang("#!/usr/bin/env x\nbody".to_string()), "body");
    assert_eq!(strip_shebang("#!noeol".to_string()), "");
    assert_eq!(strip_shebang("no shebang\n".to_string()), "no shebang\n");
    assert_eq!(strip_shebang("".to_string()), "");
}

#[test]
fn test_map_content_type() {
    let fixtures: Vec<(&str, Option<String>, MediaType, Option<String>)> = vec![
        ("file:///foo/bar.ts", None, MediaType::TypeScript, None),
        ("file:///foo/bar.tsx", None, MediaType::TSX, None),
        ("file:///foo/bar.d.ts", None, MediaType::Dts, None),
        ("file:///foo/bar.js", None, MediaType::JavaScript, None),
        ("file:///foo/bar.jsx", None, MediaType::JSX, None),
        ("file:///foo/bar.json", None, MediaType::Json, None),
        ("file:///foo/bar.wasm", None, MediaType::Wasm, None),
        ("file:///foo/bar.cjs", None, MediaType::JavaScript, None),
        ("file:///foo/bar.mjs", None, MediaType::JavaScript, None),
        ("file:///foo/bar", None, MediaType::Unknown, None),
        ("https://deno.land/x/mod", Some("application/typescript".to_string()), MediaType::TypeScript, None),
        ("https://deno.land/x/mod", Some("text/typescript".to_string()), MediaType::TypeScript, None),
        ("https://deno.land/x/mod", Some("video/vnd.dlna.mpeg-tts".to_string()), MediaType::TypeScript, None),
        ("https://deno.land/x/mod", Some("video/mp2t".to_string()), MediaType::TypeScript, None),
        ("https://deno.land/x/mod", Some("application/x-typescript".to_string()), MediaType::TypeScript, None),
        ("https://deno.land/x/mod", Some("application/javascript".to_string()), MediaType::JavaScript, None),
        ("https://deno.land/x/mod", Some("text/javascript".to_string()), MediaType::JavaScript, None),
        ("https://deno.land/x/mod", Some("application/ecmascript".to_string()), MediaType::JavaScript, None),
        ("https://deno.land/x/mod", Some("text/ecmascript".to_string()), MediaType::JavaScript, None),
        ("https://deno.land/x/mod", Some("application/x-javascript".to_string()), MediaType::JavaScript, None),
        ("https://deno.land/x/mod", Some("application/node".to_string()), MediaType::JavaScript, None),
        ("https://deno.land/x/mod", Some("text/json".to_string()), MediaType::Json, None),
        (
            "https://deno.land/x/mod",
            Some("text/json; charset=utf-8".to_string()),
            MediaType::Json,
            Some("utf-8".to_string()),
        ),
        ("https://deno.land/x/mod.ts", Some("text/plain".to_string()), MediaType::TypeScript, None),
        ("https://deno.land/x/mod.ts", Some("foo/bar".to_string()), MediaType::Unknown, None),
        ("https://deno.land/x/mod.tsx", Some("application/typescript".to_string()), MediaType::TSX, None),
        ("https://deno.land/x/mod.tsx", Some("application/javascript".to_string()), MediaType::TSX, None),
        ("https://deno.land/x/mod.jsx", Some("application/javascript".to_string()), MediaType::JSX, None),
        ("https://deno.land/x/mod.jsx", Some("application/x-typescript".to_string()), MediaType::JSX, None),
        ("https://deno.land/x/mod.d.ts", Some("application/javascript".to_string()), MediaType::JavaScript, None),
        ("https://deno.land/x/mod.d.ts", Some("text/plain".to_string()), MediaType::Dts, None),
        ("https://deno.land/x/mod.d.ts", Some("application/x-typescript".to_string()), MediaType::Dts, None),
    ];
    for (specifier, maybe_content_type, media_type, maybe_charset) in fixtures {
        let specifier = spec(specifier);
        assert_eq!(map_content_type(&specifier, maybe_content_type), (media_type, maybe_charset));
    }
}

#[test]
fn classify_by_path_examples() {
    assert_eq!(media_type_from_path("/a/b.ts"), MediaType::TypeScript);
    assert_eq!(media_type_from_path("/a/b.d.ts"), MediaType::Dts);
    assert_eq!(media_type_from_path("/a/b.tsx"), MediaType::TSX);
    assert_eq!(media_type_from_path("/a/b"), MediaType::Unknown);
    assert_eq!(media_type_from_path("/a/.ts"), MediaType::Unknown);
    assert_eq!(media_type_from_path("/a.d/b"), MediaType::Unknown);
}

#[test]
fn classify_json_with_charset() {
    let u = spec("https://deno.land/x/mod");
    assert_eq!(
        map_content_type(&u, Some("text/json; charset=utf-8".to_string())),
        (MediaType::Json, Some("utf-8".to_string()))
    );
}

#[test]
fn content_type_wins_over_declaration_path_for_javascript() {
    let u = spec("https://deno.land/x/mod.d.ts");
    assert_eq!(
        map_content_type(&u, Some("application/javascript".to_string())),
        (MediaType::JavaScript, None)
    );
}

#[test]
fn content_type_is_trimmed_and_lower_cased() {
    let u = spec("https://deno.land/x/mod");
    assert_eq!(
        map_content_type(&u, Some("  Application/TypeScript ;  charset=latin1 ; x=y".to_string())),
        (MediaType::TypeScript, Some("latin1".to_string()))
    );
    assert_eq!(media_type_of_mime("APPLICATION/JSON", "/a.ts"), MediaType::Unknown);
    assert_eq!(media_type_of_mime("application/wasm", "/a.ts"), MediaType::Wasm);
    assert_eq!(media_type_of_mime("application/octet-stream", "/a.wasm"), MediaType::Wasm);
}

#[test]
fn charset_is_the_first_declared() {
    let u = spec("https://deno.land/x/mod.js");
    assert_eq!(
        map_content_type(&u, Some("text/javascript;x=1; charset=utf-16le;charset=utf-8".to_string())),
        (MediaType::JavaScript, Some("utf-16le".to_string()))
    );
}

#[test]
fn reload_some_matches_prefixes() {
    let setting = CacheSetting::ReloadSome(vec!["https://h/std".to_string()]);
    assert!(!setting.should_use(&spec("https://h/std/mod.ts")));
    assert!(setting.should_use(&spec("https://h/other.ts")));
}

#[test]
fn reload_some_ignores_query_and_fragment() {
    let setting = CacheSetting::ReloadSome(vec!["https://h/x/mod.ts?v=1".to_string()]);
    assert!(!setting.should_use(&spec("https://h/x/mod.ts?v=1#frag")));
    assert!(setting.should_use(&spec("https://h/x/mod.ts?v=2")));
    let setting = CacheSetting::ReloadSome(vec!["https://h/x/mod.ts".to_string()]);
    assert!(!setting.should_use(&spec("https://h/x/mod.ts?v=2#frag")));
}

#[test]
fn cache_settings_other_than_reload_some() {
    let u = spec("https://h/std/mod.ts");
    assert!(!CacheSetting::ReloadAll.should_use(&u));
    assert!(CacheSetting::Use.should_use(&u));
    assert!(CacheSetting::Only.should_use(&u));
    assert!(CacheSetting::Only.only());
    assert!(!CacheSetting::Use.only());
}

#[test]
fn detect_charset_by_byte_order_mark() {
    assert_eq!(detect_charset(&[0xFF, 0xFE, 0x41, 0x00]), "utf-16le");
    assert_eq!(detect_charset(&[0xFE, 0xFF, 0x00, 0x41]), "utf-16be");
    assert_eq!(detect_charset(&[0xEF, 0xBB, 0xBF, 0x41]), "utf-8");
    assert_eq!(detect_charset(&[]), "utf-8");
}

#[test]
fn utf16le_bom_decodes_alike_with_and_without_declaration() {
    let bytes = utf16le("console.log(\"Hello World\");\n");
    let detected = get_source_from_bytes(bytes.clone(), None).unwrap();
    let declared = get_source_from_bytes(bytes, Some("utf-16le".to_string())).unwrap();
    assert_eq!(detected, declared);
    assert_eq!(detected, "\u{FEFF}console.log(\"Hello World\");\n");
}

#[test]
fn utf16be_decodes() {
    let bytes = utf16be("let a = 1;");
    assert_eq!(get_source_from_bytes(bytes, None).unwrap(), "\u{FEFF}let a = 1;");
}

#[test]
fn windows_1255_decodes() {
    let mut bytes = b"console.log(\"".to_vec();
    bytes.extend_from_slice(&[0xF9, 0xEC, 0xE5, 0xED, 0x20, 0xF2, 0xE5, 0xEC, 0xED]);
    bytes.extend_from_slice(b"\");\n");
    assert_eq!(
        get_source_from_bytes(bytes, Some("windows-1255".to_string())).unwrap(),
        "console.log(\"\u{5E9}\u{5DC}\u{5D5}\u{5DD} \u{5E2}\u{5D5}\u{5DC}\u{5DD}\");\u{A}"
    );
}

#[test]
fn decode_errors() {
    assert_eq!(
        get_source_from_bytes(b"abc".to_vec(), Some("no-such-charset".to_string())),
        Err(DecodeError::UnsupportedCharset)
    );
    assert_eq!(get_source_from_bytes(vec![0xC3, 0x28], None), Err(DecodeError::InvalidData));
    assert_eq!(get_source_from_bytes(b"plain".to_vec(), None), Ok("plain".to_string()));
}

#[test]
fn resolve_import_relative_and_absolute() {
    let base = "http://localhost:4550/REDIRECT/cli/tests/subdir/redirects/redirect1.js";
    let r = Specifier::resolve_import("/cli/tests/subdir/redirects/redirect1.js", base).unwrap();
    assert_eq!(r.href, "http://localhost:4550/cli/tests/subdir/redirects/redirect1.js");
    let r = Specifier::resolve_import("./b.ts", "https://h/a/c.ts").unwrap();
    assert_eq!(r.href, "https://h/a/b.ts");
    let r = Specifier::resolve_import("https://other/x.ts", "https://h/a/c.ts").unwrap();
    assert_eq!(r.href, "https://other/x.ts");
    assert!(Specifier::resolve_import("bare", "https://h/a/c.ts").is_none());
    let p = spec("file:///a/b/c.ts");
    assert_eq!(p.scheme, "file");
    assert_eq!(p.path, "/a/b/c.ts");
    assert_eq!(p.file_path, Some("/a/b/c.ts".to_string()));
}
