//! What the service says is said in a video, and what of it is kept.

use vstd::prelude::*;
use crate::ingest::scrapecreators;
use crate::json;
use crate::json::Tree;
use crate::laws::places;
use crate::laws::reading;
use crate::text;

verus! {

/// Whether `r` is the text under the name that one platform has for a transcript.
pub open spec fn plain_text(t: Tree, r: Option<Seq<char>>) -> bool {
    reading::text_from_first(
        seq![
            json::field(t, "transcript_only_text"@),
            json::field(t, "text"@),
            json::field(t, "transcript_text"@),
        ],
        r,
    )
}

/// Whether `r` is the text of the first transcript of a list.
pub open spec fn first_listed_text(t: Tree, r: Option<Seq<char>>) -> bool {
    reading::text_from(
        reading::below(reading::first_in(json::field(t, "transcripts"@)), "text"@),
        r,
    )
}

/// Whether `r` is a transcript that is a text.
pub open spec fn whole_text(t: Tree, r: Option<Seq<char>>) -> bool {
    reading::text_from(json::field(t, "transcript"@), r)
}

/// The text of a segment.
pub open spec fn segment_says(s: Tree) -> Option<Seq<char>> {
    match json::field(s, "text"@) {
        Some(Tree::Str(x)) => Some(x),
        _ => None,
    }
}

/// The texts of segments.
pub open spec fn segments_say(a: Seq<Tree>) -> Seq<Option<Seq<char>>> {
    Seq::new(a.len(), |i: int| segment_says(a[i]))
}

/// Whether `r` are the texts of the segments of a transcript, in their order, with a space
/// between them.
pub open spec fn segments_text(t: Tree, r: Option<Seq<char>>) -> bool {
    match json::field(t, "transcript"@) {
        Some(Tree::Array(a)) => exists|v: Seq<Seq<char>>|
            #[trigger] reading::keeps_order(v, segments_say(a)) && r
                == (if text::blank(text::join(v, " "@)) {
                None
            } else {
                Some(text::join(v, " "@))
            }),
        _ => r is None,
    }
}

/// The text of a transcript is what the answer says under the first of its names under
/// which it says something: under that of one platform, as the first of a list, as one
/// text, or in segments.
pub proof fn law_transcript_is_what_the_answer_says(t: Tree)
    ensures
        exists|a: Option<Seq<char>>, b: Option<Seq<char>>, c: Option<Seq<char>>|
            {
                let r = scrapecreators::raw_text(t);
                &&& #[trigger] plain_text(t, a)
                &&& #[trigger] first_listed_text(t, b)
                &&& #[trigger] whole_text(t, c)
                &&& a is Some ==> r == a
                &&& a is None && b is Some ==> r == b
                &&& a is None && b is None && c is Some ==> r == c
                &&& a is None && b is None && c is None ==> segments_text(t, r)
            },
{
    places::lemma_transcript_text(t);
    places::lemma_at_transcripts_to_0_to_text(t);
    places::lemma_at_transcript(t);
    let a = scrapecreators::picked_text(
        t,
        ["transcript_only_text", "text", "transcript_text"]@,
    );
    let b = scrapecreators::picked_text(t, ["transcripts.0.text"]@);
    let c = scrapecreators::picked_text(t, ["transcript"]@);
    assert(plain_text(t, a) && first_listed_text(t, b) && whole_text(t, c));
    if let Some(Tree::Array(s)) = json::field(t, "transcript"@) {
        lemma_segments(s, s.len() as int);
        assert(segments_say(s) =~= Seq::new(s.len(), |i: int| segment_says(s[i])));
        assert(segments_text(t, scrapecreators::segments_text(t)));
    }
}

proof fn lemma_segments(a: Seq<Tree>, n: int)
    requires
        0 <= n <= a.len(),
    ensures
        reading::keeps_order(
            scrapecreators::segment_texts(a, n),
            Seq::new(n as nat, |i: int| segment_says(a[i])),
        ),
    decreases n,
{
    let of = Seq::new(n as nat, |i: int| segment_says(a[i]));
    if n > 0 {
        lemma_segments(a, n - 1);
        let before = Seq::new((n - 1) as nat, |i: int| segment_says(a[i]));
        reading::lemma_kept(
            scrapecreators::segment_texts(a, n - 1),
            before,
            segment_says(a[n - 1]),
        );
        assert(of =~= before.push(segment_says(a[n - 1])));
    } else {
        reading::lemma_none_kept::<Seq<char>>();
        assert(of =~= Seq::empty());
        assert(scrapecreators::segment_texts(a, n) =~= Seq::empty());
    }
}

/// What a line of a caption file says: nothing where it is empty, the header, a pair of
/// times or the number of a caption, and otherwise itself, without white space around it.
pub open spec fn line_says(l: Seq<char>) -> Option<Seq<char>> {
    let x = text::trim(l);
    if x.len() == 0 || x == "WEBVTT"@ || text::contains(x, "-->"@) || text::all_digits(x) {
        None
    } else {
        Some(x)
    }
}

/// What the lines of a caption file say.
pub open spec fn lines_say(l: Seq<Seq<char>>) -> Seq<Option<Seq<char>>> {
    Seq::new(l.len(), |i: int| line_says(l[i]))
}

/// What is said in a caption file is what its lines say, in their order, with a space
/// between them.
pub proof fn law_captions_are_read(t: Seq<char>)
    ensures
        exists|v: Seq<Seq<char>>|
            scrapecreators::spoken(t) == text::join(v, " "@) && #[trigger] reading::keeps_order(
                v,
                lines_say(text::lines(t)),
            ),
{
    let l = text::lines(t);
    lemma_spoken(l, l.len() as int);
    assert(lines_say(l) =~= Seq::new(l.len(), |i: int| line_says(l[i])));
}

proof fn lemma_spoken(l: Seq<Seq<char>>, n: int)
    requires
        0 <= n <= l.len(),
    ensures
        reading::keeps_order(
            scrapecreators::spoken_lines(l, n),
            Seq::new(n as nat, |i: int| line_says(l[i])),
        ),
    decreases n,
{
    let of = Seq::new(n as nat, |i: int| line_says(l[i]));
    if n > 0 {
        lemma_spoken(l, n - 1);
        let before = Seq::new((n - 1) as nat, |i: int| line_says(l[i]));
        reading::lemma_kept(
            scrapecreators::spoken_lines(l, n - 1),
            before,
            line_says(l[n - 1]),
        );
        assert(of =~= before.push(line_says(l[n - 1])));
    } else {
        reading::lemma_none_kept::<Seq<char>>();
        assert(of =~= Seq::empty());
        assert(scrapecreators::spoken_lines(l, n) =~= Seq::empty());
    }
}

/// A caption file is one that begins with its header, after white space at most; and
/// nothing else is one.
pub proof fn law_caption_files_begin_with_their_header(space: Seq<char>, rest: Seq<char>, t: Seq<char>)
    requires
        text::blank(space),
    ensures
        scrapecreators::webvtt(space + "WEBVTT"@ + rest),
        t.len() > 0 && !text::is_space(t[0]) && t[0] != 'W' ==> !scrapecreators::webvtt(t),
{
    reveal_strlit("WEBVTT");
    let all = space + "WEBVTT"@ + rest;
    lemma_past_space(all, space.len() as int, 0);
    assert(text::trim_start(all).subrange(0, 6) =~= "WEBVTT"@);
    if t.len() > 0 && !text::is_space(t[0]) && t[0] != 'W' {
        assert(text::trim_start(t) =~= t);
        if scrapecreators::webvtt(t) {
            assert(t.subrange(0, 6)[0] == t[0]);
        }
    }
}

proof fn lemma_past_space(t: Seq<char>, e: int, k: int)
    requires
        0 <= k <= e < t.len(),
        forall|i: int| 0 <= i < e ==> text::is_space(t[i]),
        !text::is_space(t[e]),
    ensures
        text::first_solid(t, k) == e,
    decreases e - k,
{
    if k < e {
        lemma_past_space(t, e, k + 1);
    }
}

/// The phrases with which a model says that it could not transcribe.
pub open spec fn excuses() -> Seq<Seq<char>> {
    seq![
        "please provide the audio"@,
        "please provide the video"@,
        "would like me to transcribe"@,
        "i cannot transcribe"@,
        "i'm unable to transcribe"@,
        "i am unable to transcribe"@,
        "no audio content"@,
        "no speech detected"@,
    ]
}

/// A text is the excuse of a model exactly where it is short and one of the phrases stands
/// in it, in capitals or not; a long text never is one, whatever it says.
pub proof fn law_excuses_are_short(t: Seq<char>)
    ensures
        scrapecreators::failed_transcription(t) <==> text::trim(t).len() <= 200 && exists|i: int|
            0 <= i < excuses().len() && text::contains(
                text::lower(text::trim(t)),
                #[trigger] excuses()[i],
            ),
{
    let s = text::lower(text::trim(t));
    let e = excuses();
    if scrapecreators::failed_transcription(t) {
        if text::contains(s, e[0]) {
        } else if text::contains(s, e[1]) {
        } else if text::contains(s, e[2]) {
        } else if text::contains(s, e[3]) {
        } else if text::contains(s, e[4]) {
        } else if text::contains(s, e[5]) {
        } else if text::contains(s, e[6]) {
        } else {
            assert(text::contains(s, e[7]));
        }
    }
}

/// A transcript is kept where there is a text that is not blank and no excuse: the text
/// itself without white space around it, or what the lines of a caption file say. It is
/// kept for its video, with its language where the answer names one.
pub proof fn law_transcript_is_kept(t: Tree, video_id: Seq<char>, now: int, raw: Seq<char>)
    requires
        scrapecreators::raw_text(t) == Some(raw),
    ensures
        ({
            let x = text::trim(
                if scrapecreators::webvtt(raw) {
                    scrapecreators::spoken(raw)
                } else {
                    raw
                },
            );
            match scrapecreators::transcript_view(t, video_id, now) {
                Some(v) => {
                    &&& v.text == x && x.len() > 0
                    &&& !scrapecreators::failed_transcription(x)
                    &&& v.video_id == video_id
                    &&& v.fetched_at == now
                    &&& v.source == "sc"@
                    &&& reading::text_from(json::field(t, "language"@), v.lang)
                },
                None => x.len() == 0 || scrapecreators::failed_transcription(x),
            }
        }),
{
    places::lemma_at_language(t);
}

/// Without a text there is no transcript.
pub proof fn law_no_text_no_transcript(t: Tree, video_id: Seq<char>, now: int)
    requires
        scrapecreators::raw_text(t) is None,
    ensures
        scrapecreators::transcript_view(t, video_id, now) is None,
{
}

} // verus!
