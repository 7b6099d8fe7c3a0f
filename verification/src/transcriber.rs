//! The decisions around the speech model: which model file to use, how many
//! threads to give it, whether the model file is there, and how the text of
//! the recognised segments is put together.
use vstd::prelude::*;
use crate::error::WhisperError;
use crate::text::{opt_str_text, opt_string_text, trim_str, trimmed, trim_start, trim_end, is_white_space, lemma_trimmed_ends};

verus! {

/// The trimmed segments that are not empty, in order.
pub open spec fn kept_segments(segs: Seq<Seq<char>>) -> Seq<Seq<char>> {
    segs.map_values(|s: Seq<char>| trimmed(s)).filter(|t: Seq<char>| t.len() > 0)
}

/// The texts `ws` joined by single spaces.
pub open spec fn join_spaced(ws: Seq<Seq<char>>) -> Seq<char>
    decreases ws.len(),
{
    if ws.len() == 0 {
        Seq::empty()
    } else if ws.len() == 1 {
        ws[0]
    } else {
        join_spaced(ws.drop_last()) + seq![' '] + ws.last()
    }
}

/// Each text of `ws` followed by one space.
pub open spec fn with_spaces(ws: Seq<Seq<char>>) -> Seq<char>
    decreases ws.len(),
{
    if ws.len() == 0 {
        Seq::empty()
    } else {
        with_spaces(ws.drop_last()) + ws.last() + seq![' ']
    }
}

/// The text of a transcription made of recognised segments: each segment
/// trimmed, empty ones dropped, the rest joined by single spaces.
pub open spec fn segments_text(segs: Seq<Seq<char>>) -> Seq<char> {
    join_spaced(kept_segments(segs))
}

/// Texts that are not empty and neither start nor end with white space.
pub open spec fn all_solid(ws: Seq<Seq<char>>) -> bool {
    forall|i: int|
        0 <= i < ws.len() ==> (#[trigger] ws[i]).len() > 0 && !is_white_space(ws[i][0])
            && !is_white_space(ws[i].last())
}

proof fn lemma_with_spaces_is_joined(ws: Seq<Seq<char>>)
    requires
        ws.len() > 0,
        all_solid(ws),
    ensures
        with_spaces(ws) == join_spaced(ws) + seq![' '],
        join_spaced(ws).len() > 0,
        join_spaced(ws)[0] == ws[0][0],
        join_spaced(ws).last() == ws.last().last(),
    decreases ws.len(),
{
    if ws.len() == 1 {
        assert(with_spaces(ws.drop_last()) =~= Seq::<char>::empty());
        assert(with_spaces(ws) =~= join_spaced(ws) + seq![' ']);
    } else {
        let front = ws.drop_last();
        assert forall|i: int| 0 <= i < front.len() implies (#[trigger] front[i]).len() > 0
            && !is_white_space(front[i][0]) && !is_white_space(front[i].last()) by {
            assert(front[i] == ws[i]);
        }
        lemma_with_spaces_is_joined(front);
        assert(ws.last() == ws[ws.len() - 1]);
        assert(with_spaces(ws) =~= join_spaced(ws) + seq![' ']);
        assert(front[0] == ws[0]);
    }
}

/// Trimming the segments joined with trailing spaces gives them joined by
/// single spaces.
proof fn lemma_trim_with_spaces(ws: Seq<Seq<char>>)
    requires
        all_solid(ws),
    ensures
        trimmed(with_spaces(ws)) == join_spaced(ws),
{
    if ws.len() == 0 {
        assert(trimmed(with_spaces(ws)) =~= Seq::<char>::empty());
    } else {
        lemma_with_spaces_is_joined(ws);
        let x = join_spaced(ws);
        let y = x + seq![' '];
        assert(ws.last() == ws[ws.len() - 1]);
        assert(!is_white_space(y[0]));
        assert(trim_start(y) == y);
        assert(is_white_space(y.last()));
        assert(y.drop_last() =~= x);
        assert(trim_end(x) == x);
    }
}

/// Joins the text of recognised segments: each is trimmed, empty ones are
/// dropped, the rest are joined by single spaces.
pub fn join_segments(segments: &Vec<String>) -> (r: String)
    ensures
        r@ == segments_text(segments@.map_values(|s: String| s@)),
{
    let ghost segs = segments@.map_values(|s: String| s@);
    let ghost mut kept: Seq<Seq<char>> = Seq::empty();
    let mut result = String::new();
    let mut i: usize = 0;
    while i < segments.len()
        invariant
            i <= segments@.len(),
            segs == segments@.map_values(|s: String| s@),
            kept == kept_segments(segs.take(i as int)),
            all_solid(kept),
            result@ == with_spaces(kept),
        decreases segments.len() - i,
    {
        let t = trim_str(segments[i].as_str());
        proof {
            assert(segs.take(i + 1) =~= segs.take(i as int).push(segs[i as int]));
            assert(segs.take(i + 1).map_values(|s: Seq<char>| trimmed(s)) =~= segs.take(
                i as int,
            ).map_values(|s: Seq<char>| trimmed(s)).push(trimmed(segs[i as int])));
            let m = segs.take(i as int).map_values(|s: Seq<char>| trimmed(s));
            let m2 = m.push(trimmed(segs[i as int]));
            assert(m2.drop_last() =~= m);
            assert(m2.last() == trimmed(segs[i as int]));
            reveal(Seq::filter);
            lemma_trimmed_ends(segs[i as int]);
        }
        if !t.is_empty() {
            result.append(t);
            result.append(" ");
            proof {
                let old_kept = kept;
                kept = kept.push(t@);
                assert(kept.drop_last() =~= old_kept);
                reveal_strlit(" ");
                assert(result@ =~= with_spaces(kept));
                assert forall|j: int| 0 <= j < kept.len() implies (#[trigger] kept[j]).len() > 0
                    && !is_white_space(kept[j][0]) && !is_white_space(kept[j].last()) by {
                    if j < old_kept.len() {
                        assert(kept[j] == old_kept[j]);
                    }
                }
            }
        }
        i = i + 1;
    }
    proof {
        assert(segs.take(i as int) =~= segs);
        lemma_trim_with_spaces(kept);
    }
    trim_str(result.as_str()).to_owned()
}

/// The number of threads to give the model: what the machine offers, at
/// most 4 (the count converted to `i32` as `as` converts it), or 2 when the
/// machine does not say.
pub open spec fn thread_count_spec(available: Option<usize>) -> i32 {
    match available {
        Some(n) => if (n as i32) < 4 { n as i32 } else { 4 },
        None => 2,
    }
}

/// The number of threads to give the model; see `thread_count_spec`.
pub fn whisper_thread_count(available: Option<usize>) -> (r: i32)
    ensures
        r == thread_count_spec(available),
{
    match available {
        Some(n) => {
            let c = n as i32;
            if c < 4 { c } else { 4 }
        },
        None => 2,
    }
}

/// The model file used when nothing else names one, relative to the working
/// directory.
pub open spec fn default_model_path() -> Seq<char> {
    "assets/ggml-base.bin"@
}

/// The model path in order of preference: the one given explicitly, the
/// `WHISPER_MODEL` setting, the `assets/ggml-base.bin` beside the executable
/// (given only when that file exists), and last the default relative path.
pub open spec fn model_path_spec(
    explicit: Option<Seq<char>>,
    from_env: Option<Seq<char>>,
    beside_executable: Option<Seq<char>>,
) -> Seq<char> {
    match explicit {
        Some(p) => p,
        None => match from_env {
            Some(p) => p,
            None => match beside_executable {
                Some(p) => p,
                None => default_model_path(),
            },
        },
    }
}

/// Chooses the model file; see `model_path_spec`.
pub fn choose_model_path(
    explicit: Option<&str>,
    from_env: Option<String>,
    beside_executable: Option<String>,
) -> (r: String)
    ensures
        r@ == model_path_spec(
            opt_str_text(explicit),
            opt_string_text(from_env),
            opt_string_text(beside_executable),
        ),
{
    match explicit {
        Some(p) => p.to_owned(),
        None => match from_env {
            Some(p) => p,
            None => match beside_executable {
                Some(p) => p,
                None => "assets/ggml-base.bin".to_owned(),
            },
        },
    }
}

/// A missing model file is `ModelNotFound` with the path; otherwise the
/// model can be loaded.
pub fn check_model_present(model_path: &str, exists: bool) -> (r: Result<(), WhisperError>)
    ensures
        exists <==> r is Ok,
        r matches Err(e) ==> (e matches WhisperError::ModelNotFound(p) && p@ == model_path@),
{
    if exists {
        Ok(())
    } else {
        Err(WhisperError::ModelNotFound(model_path.to_owned()))
    }
}

} // verus!
