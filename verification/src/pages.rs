//! The pages and scripts that the launcher shows in its web view.
use vstd::prelude::*;
use crate::escape::{
    html_escape, html_escaped, js_escaped, js_literal, js_str, js_string_body,
    js_unescape, lemma_js_escape_faithful, without_cr,
};
use crate::text::push_text;

verus! {

/// The loading page up to the status text.
pub const LOADING_HEAD: &'static str = r#"<!doctype html><html><head><meta charset="utf-8"><title>MeNote</title><style>
body{margin:0;height:100vh;display:flex;align-items:center;justify-content:center;
background:#f5f7fa;font-family:'Segoe UI','Microsoft YaHei',sans-serif}
.card{text-align:center;padding:40px 56px;background:#fff;border-radius:12px;
box-shadow:0 8px 32px rgba(0,0,0,.08)}
.logo{font-size:34px;font-weight:700;color:#409eff;letter-spacing:1px}
.spin{margin:18px auto 14px;width:28px;height:28px;border-radius:50%;
border:3px solid #e4e7ed;border-top-color:#409eff;animation:r 0.9s linear infinite}
@keyframes r{to{transform:rotate(360deg)}}
#status{color:#909399;font-size:13px}
</style></head><body><div class="card"><div class="logo">MeNote</div>
<div class="spin"></div><div id="status">"#;

/// The loading page after the status text.
pub const LOADING_TAIL: &'static str = r#"</div></div></body></html>"#;

/// The error page up to the error text.
pub const ERROR_HEAD: &'static str = r#"<!doctype html><html><head><meta charset="utf-8"><title>MeNote 启动失败</title><style>
body{margin:0;height:100vh;display:flex;align-items:center;justify-content:center;
background:#f5f7fa;font-family:'Segoe UI','Microsoft YaHei',sans-serif}
.card{max-width:640px;padding:36px 44px;background:#fff;border-radius:12px;
box-shadow:0 8px 32px rgba(0,0,0,.08)}
h1{font-size:19px;color:#f56c6c;margin:0 0 14px}
pre{white-space:pre-wrap;word-break:break-all;background:#f8f9fb;padding:14px;
border-radius:8px;font-size:13px;color:#606266;border:1px solid #ebeef5}
</style></head><body><div class="card"><h1>启动失败</h1><pre>"#;

/// The error page after the error text.
pub const ERROR_TAIL: &'static str = r#"</pre></div></body></html>"#;

/// The loading page: a card with the product name, a spinner and the
/// status text (inserted as given, into the element with id `status`).
pub fn loading_page(status: &str) -> (r: String)
    ensures
        r@ == LOADING_HEAD@ + status@ + LOADING_TAIL@,
{
    let mut page = String::new();
    push_text(&mut page, LOADING_HEAD);
    push_text(&mut page, status);
    push_text(&mut page, LOADING_TAIL);
    page
}

/// The error page: the error text, HTML-escaped, inside a `<pre>` block.
pub fn error_page(text: &str) -> (r: String)
    ensures
        r@ == ERROR_HEAD@ + html_escaped(text@) + ERROR_TAIL@,
{
    let escaped = html_escape(text);
    let mut page = String::new();
    push_text(&mut page, ERROR_HEAD);
    push_text(&mut page, escaped.as_str());
    push_text(&mut page, ERROR_TAIL);
    page
}

/// What the background work tells the window.
pub enum UiMessage {
    /// New status text for the loading page.
    Status(String),
    /// The service is ready at this address.
    Ready(String),
    /// Start-up failed for this reason.
    Fatal(String),
}

/// The script that replaces the loading page's status text.
pub open spec fn status_script(text: Seq<char>) -> Seq<char> {
    "var el=document.getElementById('status');if(el)el.textContent="@ + js_literal(text) + ";"@
}

/// The script that navigates to the service.
pub open spec fn ready_script(url: Seq<char>) -> Seq<char> {
    "window.location.replace("@ + js_literal(url) + ")"@
}

/// The script that replaces the document with the error page.
pub open spec fn fatal_script(text: Seq<char>) -> Seq<char> {
    "document.documentElement.innerHTML="@ + js_literal(ERROR_HEAD@ + html_escaped(text) + ERROR_TAIL@)
}

/// The script that a message asks the web view to run.
pub open spec fn script_for(msg: UiMessage) -> Seq<char> {
    match msg {
        UiMessage::Status(t) => status_script(t@),
        UiMessage::Ready(u) => ready_script(u@),
        UiMessage::Fatal(t) => fatal_script(t@),
    }
}

/// `lit` is a double-quoted JavaScript string literal that lexes as one
/// and denotes `text` less its carriage returns.
pub open spec fn literal_denotes(lit: Seq<char>, text: Seq<char>) -> bool {
    &&& lit.len() >= 2
    &&& lit[0] == '"'
    &&& lit.last() == '"'
    &&& js_string_body(lit.subrange(1, lit.len() - 1))
    &&& js_unescape(lit.subrange(1, lit.len() - 1)) == without_cr(text)
}

proof fn lemma_literal_denotes(text: Seq<char>)
    ensures
        literal_denotes(js_literal(text), text),
{
    lemma_js_escape_faithful(text);
    let lit = js_literal(text);
    assert(lit.subrange(1, lit.len() - 1) =~= js_escaped(text));
}

/// The ready script navigates to the address it was given: it is
/// `window.location.replace(` and `)` around a literal that denotes that
/// very address.
pub proof fn lemma_ready_script_navigates(url: Seq<char>)
    ensures
        exists|lit: Seq<char>|
            #![trigger literal_denotes(lit, url)]
            ready_script(url) == "window.location.replace("@ + lit + ")"@ && literal_denotes(lit, url),
{
    lemma_literal_denotes(url);
    assert(literal_denotes(js_literal(url), url));
}

/// The status script shows the text it was given: it sets the status
/// element's text to a literal that denotes that very text.
pub proof fn lemma_status_script_shows(text: Seq<char>)
    ensures
        exists|lit: Seq<char>|
            #![trigger literal_denotes(lit, text)]
            status_script(text) == "var el=document.getElementById('status');if(el)el.textContent="@
                + lit + ";"@ && literal_denotes(lit, text),
{
    lemma_literal_denotes(text);
    assert(literal_denotes(js_literal(text), text));
}

/// The fatal script shows the error page for the reason it was given: it
/// replaces the document by a literal that denotes that page.
pub proof fn lemma_fatal_script_shows(text: Seq<char>)
    ensures
        exists|lit: Seq<char>|
            #![trigger literal_denotes(lit, ERROR_HEAD@ + html_escaped(text) + ERROR_TAIL@)]
            fatal_script(text) == "document.documentElement.innerHTML="@ + lit && literal_denotes(
                lit,
                ERROR_HEAD@ + html_escaped(text) + ERROR_TAIL@,
            ),
{
    let page = ERROR_HEAD@ + html_escaped(text) + ERROR_TAIL@;
    lemma_literal_denotes(page);
    assert(literal_denotes(js_literal(page), page));
}

/// The script the window runs when it receives `msg`.
pub fn ui_script(msg: &UiMessage) -> (r: String)
    ensures
        r@ == script_for(*msg),
{
    let mut js = String::new();
    match msg {
        UiMessage::Status(text) => {
            push_text(&mut js, "var el=document.getElementById('status');if(el)el.textContent=");
            let lit = js_str(text.as_str());
            push_text(&mut js, lit.as_str());
            push_text(&mut js, ";");
        },
        UiMessage::Ready(url) => {
            push_text(&mut js, "window.location.replace(");
            let lit = js_str(url.as_str());
            push_text(&mut js, lit.as_str());
            push_text(&mut js, ")");
        },
        UiMessage::Fatal(text) => {
            push_text(&mut js, "document.documentElement.innerHTML=");
            let page = error_page(text.as_str());
            let lit = js_str(page.as_str());
            push_text(&mut js, lit.as_str());
        },
    }
    js
}

} // verus!
