use vstd::prelude::*;

verus! {

/// What `str::trim` makes of a text: the text without its leading and trailing
/// whitespace.
pub uninterp spec fn trimmed(s: Seq<char>) -> Seq<char>;

/// Relies on `str::trim`: the result depends on the characters alone.
#[verifier::external_body]
pub(crate) fn trim_text<'a>(s: &'a str) -> (r: &'a str)
    ensures
        r@ == trimmed(s@),
{
    s.trim()
}

/// The header that introduces the context block in a composed prompt.
pub open spec fn context_header() -> Seq<char> {
    "Context (Launch Plan):\n"@
}

/// The separator between the context block and the user's request.
pub open spec fn request_header() -> Seq<char> {
    "\n\nUser request:\n"@
}

/// The prompt built from an already trimmed context and the user's text: the
/// text alone when the context is empty, else the labelled two-part template.
pub open spec fn composed(trimmed_context: Seq<char>, user_text: Seq<char>) -> Seq<char> {
    if trimmed_context.len() == 0 {
        user_text
    } else {
        context_header() + trimmed_context + request_header() + user_text
    }
}

/// The prompt for a raw context block and the user's text.
pub open spec fn prompt_of(context: Seq<char>, user_text: Seq<char>) -> Seq<char> {
    composed(trimmed(context), user_text)
}

/// Builds the prompt from a context that has already been trimmed.
pub fn compose_trimmed(trimmed_context: &str, user_text: &str) -> (r: String)
    ensures
        r@ == composed(trimmed_context@, user_text@),
{
    if trimmed_context.is_empty() {
        String::from_str(user_text)
    } else {
        let mut r = String::from_str("Context (Launch Plan):\n");
        r.append(trimmed_context);
        r.append("\n\nUser request:\n");
        r.append(user_text);
        r
    }
}

/// Builds the prompt sent to the model from the loaded context and the user's text.
pub fn compose_prompt(context: &str, user_text: &str) -> (r: String)
    ensures
        r@ == prompt_of(context@, user_text@),
{
    let t = trim_text(context);
    compose_trimmed(t, user_text)
}

/// Composition depends on its inputs alone: the same context and user text
/// always give the same prompt.
pub proof fn lemma_compose_deterministic(
    context1: Seq<char>,
    user_text1: Seq<char>,
    context2: Seq<char>,
    user_text2: Seq<char>,
)
    requires
        context1 == context2,
        user_text1 == user_text2,
    ensures
        prompt_of(context1, user_text1) == prompt_of(context2, user_text2),
{
}

/// With a blank context the prompt is the user's text unchanged. Otherwise it
/// starts with the context header, then holds the trimmed context, then the
/// request header, and ends with the user's text.
pub proof fn lemma_compose_shape(context: Seq<char>, user_text: Seq<char>)
    ensures
        trimmed(context).len() == 0 ==> prompt_of(context, user_text) == user_text,
        trimmed(context).len() != 0 ==> {
            let p = prompt_of(context, user_text);
            let t = trimmed(context);
            let h = context_header().len() as int;
            let k = h + t.len() + request_header().len();
            &&& p.len() == k + user_text.len()
            &&& p.subrange(0, h) == context_header()
            &&& p.subrange(h, h + t.len()) == t
            &&& p.subrange(h + t.len(), k) == request_header()
            &&& p.subrange(k, p.len() as int) == user_text
        },
{
    let t = trimmed(context);
    if t.len() != 0 {
        let p = prompt_of(context, user_text);
        let h = context_header().len() as int;
        let k = h + t.len() + request_header().len();
        assert(p.subrange(0, h) =~= context_header());
        assert(p.subrange(h, h + t.len()) =~= t);
        assert(p.subrange(h + t.len(), k) =~= request_header());
        assert(p.subrange(k, p.len() as int) =~= user_text);
    }
}

} // verus!
