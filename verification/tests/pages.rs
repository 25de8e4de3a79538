use menote_launcher::escape::{html_escape, js_str};
use menote_launcher::pages::{
    error_page, loading_page, ui_script, UiMessage, ERROR_HEAD, ERROR_TAIL, LOADING_HEAD,
    LOADING_TAIL,
};

#[test]
fn js_str_escapes_quotes_backslashes_and_controls() {
    assert_eq!(js_str("plain"), "\"plain\"");
    assert_eq!(js_str("a\"b"), "\"a\\\"b\"");
    assert_eq!(js_str("a\\b"), "\"a\\\\b\"");
    assert_eq!(js_str("l1\nl2"), "\"l1\\nl2\"");
    assert_eq!(js_str("cr\r\nlf"), "\"cr\\nlf\"");
    assert_eq!(js_str("\u{1}\u{1f}\t"), "\"\\u0001\\u001f\\u0009\"");
    assert_eq!(js_str(""), "\"\"");
    assert_eq!(js_str("中文 ✓ \u{7f}"), "\"中文 ✓ \u{7f}\"");
}

#[test]
fn js_str_output_never_closes_early() {
    let lit = js_str("x\"); alert(1); (\"");
    let body = &lit[1..lit.len() - 1];
    let chars: Vec<char> = body.chars().collect();
    let mut i = 0;
    while i < chars.len() {
        if chars[i] == '\\' {
            i += if chars[i + 1] == 'u' { 6 } else { 2 };
        } else {
            assert!(chars[i] != '"' && chars[i] != '\n' && chars[i] != '\r');
            i += 1;
        }
    }
}

#[test]
fn html_escape_replaces_the_special_characters() {
    assert_eq!(html_escape("a & b < c > d \"e\" 'f'"), "a &amp; b &lt; c &gt; d &quot;e&quot; 'f'");
    assert_eq!(html_escape("&amp;"), "&amp;amp;");
    assert_eq!(html_escape(""), "");
}

#[test]
fn loading_page_shows_status_as_given() {
    let page = loading_page("正在启动 MeNote…");
    assert_eq!(page, format!("{}{}{}", LOADING_HEAD, "正在启动 MeNote…", LOADING_TAIL));
    assert!(page.starts_with("<!doctype html>"));
    assert!(page.contains("<div id=\"status\">正在启动 MeNote…</div>"));
    assert!(page.contains("body{margin:0;height:100vh;"));
    assert!(page.ends_with("</div></div></body></html>"));
}

#[test]
fn error_page_escapes_the_error() {
    let page = error_page("bad <script> & \"x\"\nline 2");
    assert_eq!(
        page,
        format!("{}{}{}", ERROR_HEAD, "bad &lt;script&gt; &amp; &quot;x&quot;\nline 2", ERROR_TAIL)
    );
    assert!(page.contains("<title>MeNote 启动失败</title>"));
    assert!(page.contains("<h1>启动失败</h1><pre>bad &lt;script&gt;"));
    assert!(page.ends_with("</pre></div></body></html>"));
}

#[test]
fn scripts_for_each_message() {
    assert_eq!(
        ui_script(&UiMessage::Status("50% \"ok\"".to_string())),
        "var el=document.getElementById('status');if(el)el.textContent=\"50% \\\"ok\\\"\";"
    );
    assert_eq!(
        ui_script(&UiMessage::Ready("http://localhost:3107/admin".to_string())),
        "window.location.replace(\"http://localhost:3107/admin\")"
    );
    let fatal = ui_script(&UiMessage::Fatal("x<y".to_string()));
    assert_eq!(fatal, format!("document.documentElement.innerHTML={}", js_str(&error_page("x<y"))));
    assert!(fatal.contains("x&lt;y"));
}

#[test]
fn js_str_holds_no_raw_control_characters() {
    let all_controls: String = (0u32..0x20).filter_map(char::from_u32).collect();
    let literal = js_str(&format!("a{all_controls}b\u{7f}"));
    assert!(literal.chars().all(|c| (c as u32) >= 0x20));
    assert!(literal.starts_with("\"a\\u0000\\u0001"));
    assert!(literal.contains("\\n"));
    assert!(!literal.contains('\r'));
}
