//! When two explicit claims are the same claim.

use devo_memory::equivalence::explicit_memory_key;

/// An authorized claim keeps its wording while prose formatting normalizes.
#[test]
fn explicit_key_normalizes_only_plain_prose_formatting() {
    assert_eq!(
        explicit_memory_key("  I   prefer compact responses!  "),
        "i prefer compact responses"
    );
    assert_eq!(
        explicit_memory_key("Remember that I prefer compact responses"),
        "Remember that I prefer compact responses"
    );
    assert_eq!(
        explicit_memory_key("\"I prefer compact responses\"."),
        "i prefer compact responses"
    );
    assert_eq!(
        explicit_memory_key("(I prefer compact responses)."),
        "i prefer compact responses"
    );
}

/// An ordinary article-led sentence folds its initial capital.
#[test]
fn explicit_key_case_folds_plain_prose_article() {
    assert_eq!(explicit_memory_key("The sky is blue."), "the sky is blue");
}

/// An ordinary possessive-led sentence folds its initial capital.
#[test]
fn explicit_key_case_folds_plain_prose_possessive() {
    assert_eq!(
        explicit_memory_key("My preference is compact responses"),
        "my preference is compact responses"
    );
}

/// An internal prose comma stays present while surrounding words case-fold.
#[test]
fn explicit_key_case_folds_unambiguous_prose_with_internal_comma() {
    assert_eq!(
        explicit_memory_key("I prefer tea, not coffee."),
        "i prefer tea, not coffee"
    );
    assert_ne!(
        explicit_memory_key("FOO, BAR"),
        explicit_memory_key("foo, bar")
    );
}

/// A question remains distinct from the corresponding assertion.
#[test]
fn explicit_key_preserves_question_marks() {
    assert_ne!(
        explicit_memory_key("I prefer tea?"),
        explicit_memory_key("I prefer tea")
    );
    assert_ne!(
        explicit_memory_key("I prefer tea？"),
        explicit_memory_key("I prefer tea")
    );
}

/// A bare or embedded uppercase identifier retains its case.
#[test]
fn explicit_key_preserves_ambiguous_uppercase_identifiers() {
    assert_ne!(explicit_memory_key("FOO"), explicit_memory_key("foo"));
    assert_ne!(
        explicit_memory_key("Use FOO"),
        explicit_memory_key("use foo")
    );
    assert_ne!(
        explicit_memory_key("Use Foo"),
        explicit_memory_key("use foo")
    );
    assert_ne!(
        explicit_memory_key("The project uses Rust"),
        explicit_memory_key("the project uses rust")
    );
    assert_ne!(
        explicit_memory_key("Foo is enabled"),
        explicit_memory_key("foo is enabled")
    );
    assert_ne!(
        explicit_memory_key("X is enabled"),
        explicit_memory_key("x is enabled")
    );
}

/// Ambiguous structured punctuation and identifier case remain identity-bearing.
#[test]
fn explicit_key_keeps_structured_claims_opaque() {
    let cases = [
        ("Use API_KEY", "Use api_key"),
        ("Use FOO=1", "Use foo=1"),
        ("Use /Config", "Use /config"),
        ("Use config.toml:", "Use config.toml"),
        ("Use config.toml.", "Use config.toml"),
        ("Use C:", "Use C"),
    ];
    for (left, right) in cases {
        assert_ne!(explicit_memory_key(left), explicit_memory_key(right));
    }
    assert_eq!(explicit_memory_key("  Use  API_KEY  "), "Use API_KEY");
    assert_eq!(explicit_memory_key("Use config.toml:"), "Use config.toml:");
}

/// Structured punctuation remains identity-bearing under conservative keys.
#[test]
fn structured_tokens_remain_identity_bearing() {
    assert_ne!(
        explicit_memory_key("Use .env for configuration"),
        explicit_memory_key("Use env for configuration")
    );
    assert_ne!(
        explicit_memory_key("Use ../config"),
        explicit_memory_key("Use /config")
    );
    assert_ne!(explicit_memory_key("Use ."), explicit_memory_key("Use"));
    assert_ne!(explicit_memory_key("Use .."), explicit_memory_key("Use"));
    assert_ne!(
        explicit_memory_key("Use '.env' for configuration"),
        explicit_memory_key("Use env for configuration")
    );
    assert_ne!(
        explicit_memory_key("Use (.env) for configuration"),
        explicit_memory_key("Use env for configuration")
    );
    assert_ne!(explicit_memory_key("Use \".\""), explicit_memory_key("Use"));
    assert_ne!(explicit_memory_key("Use (..)"), explicit_memory_key("Use"));
    assert_ne!(
        explicit_memory_key("Use '.env' for configuration"),
        explicit_memory_key("Use .env for configuration")
    );
    assert_ne!(
        explicit_memory_key("Read config.toml"),
        explicit_memory_key("Read configtoml")
    );
    assert_ne!(
        explicit_memory_key("Use FOO=1"),
        explicit_memory_key("Use foo=1")
    );
    assert_ne!(
        explicit_memory_key("Remember https://example.com/Docs"),
        explicit_memory_key("Remember https://example.com/docs")
    );
    assert_ne!(
        explicit_memory_key("Use /Config"),
        explicit_memory_key("Use /config")
    );
    assert_ne!(
        explicit_memory_key("Remember “https://example.com/Docs”"),
        explicit_memory_key("Remember https://example.com/Docs")
    );
    assert_ne!(
        explicit_memory_key("Use config.toml."),
        explicit_memory_key("Use config.toml")
    );
}

/// Spacing does not tell claims apart, and a key is the key of itself.
#[test]
fn spacing_does_not_count() {
    assert_eq!(
        explicit_memory_key("Keep   the\tlines \n short"),
        explicit_memory_key("Keep the lines short")
    );
    let key = explicit_memory_key("I prefer tea.");
    assert_eq!(explicit_memory_key(&key), key);
}

#[test]
fn key_of_a_key_is_that_key() {
    for body in ["\"I prefer compact responses\".", "The sky is blue.", "Use  RUST_LOG", "tabs"] {
        let key = explicit_memory_key(body);
        assert_eq!(explicit_memory_key(&key), key);
    }
}
