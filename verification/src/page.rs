//! The view endpoint's response body.
//!
//! A successful view renders an HTML page with a decorative money-rain
//! animation and a heading that embeds the current budget; a failed read
//! degrades to a plain-text message. The page is a fixed frame around the
//! one varying heading, so the body is specified character for character.

use vstd::prelude::*;

use crate::digits::{dec_rep, format_value, parse_decimal, parse_spec};

verus! {

/// Everything of the page before the budget heading.
pub const PAGE_HEAD: &'static str = "<!DOCTYPE html>\n<html lang=\"en\">\n<head>\n<meta charset=\"UTF-8\">\n<title>Money Raining Animation</title>\n<style>\nh1 { color: white; text-align: center; margin-top: 50px; }\nbody { margin: 0; overflow: hidden; background-color: #1e1e1e; }\n.money { position: absolute; top: -50px; width: 50px; opacity: 0; animation: fall linear infinite; }\n@keyframes fall { 0% { transform: translateY(0) rotate(0deg); opacity: 1; } 100% { transform: translateY(110vh) rotate(360deg); opacity: 0; } }\n</style>\n</head>\n<body>\n<div id=\"money-container\"></div>\n<h1>";

/// Everything of the page after the budget heading.
pub const PAGE_TAIL: &'static str = "</h1>\n<script>\nconst moneyContainer = document.getElementById('money-container');\nfor (let i = 0; i < 30; i++) {\n  const money = document.createElement('span');\n  money.textContent = '\\u{1F4B6}';\n  money.className = 'money';\n  money.style.left = `${Math.random() * 100}vw`;\n  money.style.animationDuration = `${Math.random() * 3 + 2}s`;\n  moneyContainer.appendChild(money);\n}\n</script>\n</body>\n</html>\n";

/// The heading that embeds the budget: `Current Budget: {v} €`.
pub open spec fn budget_line(v: nat) -> Seq<char> {
    "Current Budget: "@ + dec_rep(v) + " \u{20ac}"@
}

/// The whole page shown for stored value `v`.
pub open spec fn home_page(v: nat) -> Seq<char> {
    PAGE_HEAD@ + budget_line(v) + PAGE_TAIL@
}

/// Renders the page for the budget value `v`.
pub fn render_page(v: u8) -> (r: String)
    ensures
        r@ == home_page(v as nat),
{
    let mut r = PAGE_HEAD.to_owned();
    r.append("Current Budget: ");
    let num = format_value(v);
    r.append(num.as_str());
    r.append(" \u{20ac}");
    r.append(PAGE_TAIL);
    proof {
        assert(r@ =~= home_page(v as nat));
    }
    r
}

/// Decides the view endpoint's body from the raw read outcome: the page
/// when the store holds a valid value, a plain message otherwise. Either
/// way the response status is 200; errors only degrade the body.
pub fn home_body(stored: Option<&str>) -> (r: String)
    ensures
        stored is None ==> r@ == "No budget found"@,
        stored matches Some(s) && parse_spec(s@) is None ==> r@ == "Invalid budget"@,
        stored matches Some(s) ==> (parse_spec(s@) matches Some(v) ==> r@ == home_page(
            v as nat,
        )),
{
    match stored {
        None => "No budget found".to_owned(),
        Some(s) => match parse_decimal(s) {
            None => "Invalid budget".to_owned(),
            Some(v) => render_page(v),
        },
    }
}

/// Law: for every stored value, the page contains the literal heading
/// `Current Budget: {v} €` as a contiguous run of characters.
pub proof fn lemma_home_page_shows_budget(v: u8)
    ensures
        exists|i: int|
            0 <= i && i + budget_line(v as nat).len() <= home_page(v as nat).len() && #[trigger] home_page(
                v as nat,
            ).subrange(i, i + budget_line(v as nat).len() as int) =~= budget_line(v as nat),
{
    let head = PAGE_HEAD@;
    let line = budget_line(v as nat);
    let page = home_page(v as nat);
    let i = head.len() as int;
    assert(page.subrange(i, i + line.len() as int) =~= line);
    assert(0 <= i && i + line.len() <= page.len() && page.subrange(i, i + line.len() as int)
        =~= line);
}

} // verus!
