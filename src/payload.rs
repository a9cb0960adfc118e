use vstd::prelude::*;
use vstd::string::*;
use crate::rate::Rate;

verus! {

/// `<speak><prosody rate='`
pub open spec fn speak_open() -> Seq<char> {
    seq!['<', 's', 'p', 'e', 'a', 'k', '>', '<', 'p', 'r', 'o', 's', 'o', 'd', 'y', ' ', 'r', 'a', 't', 'e', '=', '\'']
}

/// `'>`
pub open spec fn rate_close() -> Seq<char> {
    seq!['\'', '>']
}

/// `</prosody></speak>`
pub open spec fn speak_close() -> Seq<char> {
    seq!['<', '/', 'p', 'r', 'o', 's', 'o', 'd', 'y', '>', '<', '/', 's', 'p', 'e', 'a', 'k', '>']
}

/// The markup payload that reads `text` at `rate`: the text is embedded
/// verbatim, with no escaping, inside a prosody element.
pub open spec fn spec_payload(rate: Rate, text: Seq<char>) -> Seq<char> {
    speak_open() + rate.spec_token() + rate_close() + text + speak_close()
}

/// Builds `<speak><prosody rate='{rate}'>{text}</prosody></speak>`.
pub fn ssml_payload(rate: Rate, text: &str) -> (r: String)
    ensures
        r@ == spec_payload(rate, text@),
{
    proof {
        reveal_strlit("<speak><prosody rate='");
        reveal_strlit("'>");
        reveal_strlit("</prosody></speak>");
    }
    let mut out = String::from_str("<speak><prosody rate='");
    out.append(rate.token());
    out.append("'>");
    out.append(text);
    out.append("</prosody></speak>");
    assert(out@ == spec_payload(rate, text@));
    out
}

/// Every payload carries its rate's token, and nothing else, inside the
/// `rate='...'` attribute: the token starts right after `rate='` and is
/// followed by the closing quote.
pub proof fn lemma_payload_carries_rate(rate: Rate, text: Seq<char>)
    ensures
        ({
            let p = spec_payload(rate, text);
            let start: int = speak_open().len() as int;
            let end: int = start + rate.spec_token().len();
            &&& p.subrange(start - 6, start) == seq!['r', 'a', 't', 'e', '=', '\'']
            &&& p.subrange(start, end) == rate.spec_token()
            &&& p[end] == '\''
        }),
{
    let p = spec_payload(rate, text);
    let start: int = speak_open().len() as int;
    let end: int = start + rate.spec_token().len();
    assert(p.subrange(start - 6, start) =~= seq!['r', 'a', 't', 'e', '=', '\'']);
    assert(p.subrange(start, end) =~= rate.spec_token());
}

} // verus!
