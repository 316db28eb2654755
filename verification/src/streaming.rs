//! Streaming speech recognition results as one growing text.
//!
//! Paraformer engines report increments, which are appended here (a comma
//! marks where speech resumed after silence); Zipformer engines report the
//! whole text so far. The final text gets a full stop unless it already ends
//! with punctuation.
use vstd::prelude::*;
use crate::text::{chars_of, owned, push_str};

verus! {

/// Punctuation that may end a transcript.
pub open spec fn is_final_punct(c: char) -> bool {
    c == '，' || c == '。' || c == '！' || c == '？' || c == '；' || c == '：' || c == '、' || c
        == '.' || c == '!' || c == '?' || c == ';' || c == ','
}

/// The text with a full stop appended when it is not empty and does not end
/// with punctuation.
pub open spec fn with_final_punct(t: Seq<char>) -> Seq<char> {
    if t.len() == 0 || is_final_punct(t.last()) {
        t
    } else {
        t.push('。')
    }
}

/// Ends a transcript with punctuation.
pub fn append_final_punctuation(text: &mut String)
    ensures
        final(text)@ == with_final_punct(old(text)@),
{
    let v = chars_of(text.as_str());
    if v.len() == 0 {
        return;
    }
    let last = v[v.len() - 1];
    let p = last == '，' || last == '。' || last == '！' || last == '？' || last == '；' || last
        == '：' || last == '、' || last == '.' || last == '!' || last == '?' || last == ';'
        || last == ',';
    if !p {
        text.push('。');
    }
}

/// Kind of a recognition engine, as far as streaming goes.
pub enum EngineCategory {
    Paraformer,
    Zipformer,
    /// Any other kind, by its name.
    Other(String),
}

/// A streaming recognition session's text state.
pub enum StreamingSession {
    Paraformer { accumulated: String },
    Zipformer,
}

/// Text after an increment: a comma first when speech resumes after silence
/// and there is text already.
pub open spec fn accumulate(acc: Seq<char>, delta: Seq<char>, was_silent: bool) -> Seq<char> {
    (if was_silent && acc.len() > 0 {
        acc.push('，')
    } else {
        acc
    }) + delta
}

impl StreamingSession {
    /// A session for the engine `engine_name` of kind `category` (`None`: not
    /// a known engine); only Paraformer and Zipformer engines stream.
    pub fn new(engine_name: &str, category: Option<EngineCategory>) -> (r: Result<Self, String>)
        ensures
            match category {
                None => r matches Err(e) && e@ == "Unknown streaming engine: "@ + engine_name@,
                Some(EngineCategory::Paraformer) => r matches Ok(
                    StreamingSession::Paraformer { accumulated },
                ) && accumulated@.len() == 0,
                Some(EngineCategory::Zipformer) => r matches Ok(StreamingSession::Zipformer),
                Some(EngineCategory::Other(name)) => r matches Err(e) && e@ == "Engine '"@
                    + engine_name@ + "' ("@ + name@
                    + ") does not support streaming. Only Paraformer and Zipformer are supported."@,
            },
    {
        match category {
            None => {
                let mut e = owned("Unknown streaming engine: ");
                push_str(&mut e, engine_name);
                Err(e)
            },
            Some(EngineCategory::Paraformer) => Ok(
                StreamingSession::Paraformer { accumulated: String::new() },
            ),
            Some(EngineCategory::Zipformer) => Ok(StreamingSession::Zipformer),
            Some(EngineCategory::Other(name)) => {
                let mut e = owned("Engine '");
                push_str(&mut e, engine_name);
                push_str(&mut e, "' (");
                push_str(&mut e, name.as_str());
                push_str(
                    &mut e,
                    ") does not support streaming. Only Paraformer and Zipformer are supported.",
                );
                Err(e)
            },
        }
    }

    /// The text so far after the engine's answer to a batch of samples
    /// (`None`: no new result; the caller does not feed an empty batch).
    pub fn accept_samples(&mut self, result: Option<String>, was_silent: bool) -> (r: Option<String>)
        ensures
            match *old(self) {
                StreamingSession::Paraformer { accumulated: acc } => match result {
                    Some(delta) => {
                        &&& *final(self) matches StreamingSession::Paraformer { accumulated: a2 }
                        &&& a2@ == accumulate(acc@, delta@, was_silent)
                        &&& r matches Some(t) && t@ == a2@
                    },
                    None => {
                        &&& r is None
                        &&& *final(self) matches StreamingSession::Paraformer { accumulated: a2 }
                        &&& a2@ == acc@
                    },
                },
                StreamingSession::Zipformer => {
                    &&& *final(self) matches StreamingSession::Zipformer
                    &&& match result {
                        Some(full) => r matches Some(t) && t@ == full@,
                        None => r is None,
                    }
                },
            },
    {
        match self {
            StreamingSession::Paraformer { accumulated } => match result {
                Some(delta) => {
                    if was_silent && !accumulated.as_str().is_empty() {
                        accumulated.push('，');
                    }
                    push_str(accumulated, delta.as_str());
                    Some(owned(accumulated.as_str()))
                },
                None => None,
            },
            StreamingSession::Zipformer => result,
        }
    }

    /// The final text, from the engine's last answer: for Paraformer the
    /// last increment is appended and the text ends with punctuation; for
    /// Zipformer the engine's text as it is.
    pub fn finish(&mut self, last: String) -> (r: String)
        ensures
            match *old(self) {
                StreamingSession::Paraformer { accumulated: acc } => {
                    &&& *final(self) matches StreamingSession::Paraformer { accumulated: a2 }
                    &&& a2@ == with_final_punct(acc@ + last@)
                    &&& r@ == a2@
                },
                StreamingSession::Zipformer => {
                    &&& *final(self) matches StreamingSession::Zipformer
                    &&& r@ == last@
                },
            },
    {
        match self {
            StreamingSession::Paraformer { accumulated } => {
                if !last.as_str().is_empty() {
                    push_str(accumulated, last.as_str());
                }
                assert(last@.len() == 0 ==> accumulated@ =~= old(self)->accumulated@ + last@);
                append_final_punctuation(accumulated);
                owned(accumulated.as_str())
            },
            StreamingSession::Zipformer => last,
        }
    }

    /// Starts a new utterance: the accumulated text is cleared.
    pub fn reset(&mut self)
        ensures
            match *old(self) {
                StreamingSession::Paraformer { .. } => {
                    &&& *final(self) matches StreamingSession::Paraformer { accumulated: a2 }
                    &&& a2@.len() == 0
                },
                StreamingSession::Zipformer => *final(self) matches StreamingSession::Zipformer,
            },
    {
        match self {
            StreamingSession::Paraformer { accumulated } => {
                *accumulated = String::new();
            },
            StreamingSession::Zipformer => {},
        }
    }
}

/// A finished transcript that is not empty ends with punctuation, and a
/// transcript that already does is left as it is.
pub proof fn law_final_text_ends_with_punctuation(t: Seq<char>)
    ensures
        with_final_punct(t).len() > 0 ==> is_final_punct(with_final_punct(t).last()),
        t.len() > 0 && is_final_punct(t.last()) ==> with_final_punct(t) == t,
        with_final_punct(with_final_punct(t)) == with_final_punct(t),
{
}

/// Text already accumulated is never changed by later increments: it stays a
/// prefix of the transcript.
pub proof fn law_accumulated_text_is_kept(acc: Seq<char>, delta: Seq<char>, was_silent: bool)
    ensures
        accumulate(acc, delta, was_silent).subrange(0, acc.len() as int) == acc,
{
    assert(accumulate(acc, delta, was_silent).subrange(0, acc.len() as int) =~= acc);
}

} // verus!
