use wttrbar::html::escape_html;
use wttrbar::location::validate_location;
use wttrbar::model::AppError;

fn rejection(location: &str) -> Option<String> {
    match validate_location(location) {
        Ok(()) => None,
        Err(AppError::InvalidInput(m)) => Some(m),
        Err(e) => panic!("unexpected error {:?}", e),
    }
}

#[test]
fn escape_html_replaces_the_five_special_characters() {
    assert_eq!(
        escape_html("<b>Tom & 'Jerry' \"x\"</b>"),
        "&lt;b&gt;Tom &amp; &#x27;Jerry&#x27; &quot;x&quot;&lt;/b&gt;"
    );
}

#[test]
fn escape_html_keeps_plain_text() {
    assert_eq!(escape_html("Parcialmente nublado, 23°"), "Parcialmente nublado, 23°");
    assert_eq!(escape_html(""), "");
}

#[test]
fn escape_html_output_holds_no_markup_characters() {
    let out = escape_html("<script>alert('x')</script> \"&\"");
    assert!(!out.contains('<') && !out.contains('>') && !out.contains('"') && !out.contains('\''));
    assert_eq!(out, "&lt;script&gt;alert(&#x27;x&#x27;)&lt;/script&gt; &quot;&amp;&quot;");
}

#[test]
fn escape_html_can_be_read_back() {
    let input = "a&amp;<b>";
    let out = escape_html(input);
    assert_eq!(out, "a&amp;amp;&lt;b&gt;");
    let back = out
        .replace("&lt;", "<")
        .replace("&gt;", ">")
        .replace("&quot;", "\"")
        .replace("&#x27;", "'")
        .replace("&amp;", "&");
    assert_eq!(back, input);
}

#[test]
fn empty_location_is_accepted() {
    assert_eq!(rejection(""), None);
}

#[test]
fn place_names_are_accepted() {
    assert_eq!(rejection("São Paulo"), None);
    assert_eq!(rejection("New York"), None);
    assert_eq!(rejection("Saint-Denis d'Oléron"), None);
    assert_eq!(rejection("Frankfurt_am_Main"), None);
    assert_eq!(rejection("東京"), None);
}

#[test]
fn coordinates_are_accepted() {
    assert_eq!(rejection("40.7128,-74.0060"), None);
    assert_eq!(rejection(" 40.7 , -74 "), None);
    assert_eq!(rejection("1e5,+2.5E-3"), None);
    assert_eq!(rejection("inf,NaN"), None);
    assert_eq!(rejection("1.,.5"), None);
    assert_eq!(rejection("-Infinity,0"), None);
}

#[test]
fn malformed_coordinates_are_refused() {
    let msg = Some("Coordenadas inválidas. Use formato: lat,lon".to_string());
    assert_eq!(rejection("1,2,3"), msg);
    assert_eq!(rejection("abc,def"), msg);
    assert_eq!(rejection("1e,2"), msg);
    assert_eq!(rejection(".,."), msg);
    assert_eq!(rejection("1..2,3"), msg);
    assert_eq!(rejection("40.7,"), msg);
    assert_eq!(rejection("London, UK"), msg);
}

#[test]
fn path_characters_are_refused() {
    let msg = Some("Localização contém caracteres inválidos".to_string());
    assert_eq!(rejection("../etc/passwd"), msg);
    assert_eq!(rejection("a/b"), msg);
    assert_eq!(rejection("a\\b"), msg);
    assert_eq!(rejection("a..b"), msg);
    assert_eq!(rejection("x;y"), msg);
    assert_eq!(rejection("<b>"), msg);
}

#[test]
fn long_locations_are_refused_by_bytes() {
    let msg = Some("Localização muito longa (máx. 256 caracteres)".to_string());
    assert_eq!(rejection(&"a".repeat(256)), None);
    assert_eq!(rejection(&"a".repeat(257)), msg);
    assert_eq!(rejection(&"é".repeat(128)), None);
    assert_eq!(rejection(&"é".repeat(129)), msg);
    assert_eq!(rejection(&"/".repeat(300)), msg);
}

#[test]
fn accepted_locations_hold_no_traversal() {
    for loc in ["São Paulo", "40.7128,-74.0060", " 1. , .5 ", "Rio de Janeiro"] {
        assert_eq!(rejection(loc), None);
        assert!(!loc.contains("..") && !loc.contains('/') && !loc.contains('\\'));
        assert!(loc.len() <= 256);
    }
}

#[test]
fn error_messages_name_their_kind() {
    assert_eq!(AppError::NetworkError("x".to_string()).message(), "Erro de rede: x");
    assert_eq!(AppError::ParseError("y".to_string()).message(), "Erro de parsing: y");
    assert_eq!(AppError::CacheError("z".to_string()).message(), "Erro de cache: z");
    assert_eq!(AppError::InvalidInput("w".to_string()).message(), "Entrada inválida: w");
}

#[test]
fn escape_html_ampersands_open_entities_and_length_grows_by_formula() {
    let input = "a&b<c>d\"e'f&&";
    let out = escape_html(input);
    for (i, _) in out.match_indices('&') {
        let rest = &out[i..];
        assert!(["&amp;", "&lt;", "&gt;", "&quot;", "&#x27;"].iter().any(|e| rest.starts_with(e)));
    }
    let count = |c: char| input.chars().filter(|&x| x == c).count();
    assert_eq!(
        out.chars().count(),
        input.chars().count() + 4 * count('&') + 3 * count('<') + 3 * count('>') + 5 * count('"') + 5 * count('\'')
    );
}
