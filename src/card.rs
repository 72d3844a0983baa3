//! Card content and the text form in which a card's tags are stored.
use vstd::prelude::*;

verus! {

/// The fields of a card produced by a content generator.
#[derive(Debug)]
pub struct CardFields {
    pub front: String,
    pub back: String,
    pub tags: Vec<String>,
}

/// A stored card as handed to the user interface.
#[derive(Clone, Debug)]
pub struct CardJson {
    pub id: i64,
    pub front: String,
    pub back: String,
    pub tags: Vec<String>,
}

/// What a card holds, as plain values.
pub struct CardView {
    pub id: i64,
    pub front: Seq<char>,
    pub back: Seq<char>,
    pub tags: Seq<Seq<char>>,
}

impl View for CardJson {
    type V = CardView;

    open spec fn view(&self) -> CardView {
        CardView {
            id: self.id,
            front: self.front@,
            back: self.back@,
            tags: self.tags.deep_view(),
        }
    }
}

impl CardJson {
    /// A copy of this card.
    pub fn duplicate(&self) -> (r: CardJson)
        ensures
            r@ == self@,
    {
        let tags = self.tags.clone();
        proof {
            broadcast use vstd::std_specs::vec::vec_clone_deep_view_proof;

            assert(tags.deep_view() =~= self.tags.deep_view());
        }
        CardJson { id: self.id, front: self.front.clone(), back: self.back.clone(), tags }
    }

    /// The card held in a stored row, whose tags are in their stored form.
    pub fn from_row(id: i64, front: String, back: String, tags: &str) -> (r: CardJson)
        ensures
            r.id == id,
            r.front@ == front@,
            r.back@ == back@,
            r.tags@.len() == decoded_len(tags@),
            forall|k: int| 0 <= k < r.tags@.len() ==> #[trigger] r.tags@[k]@ == trim_of(pieces(tags@)[k]),
    {
        CardJson { id, front, back, tags: decode_tags(tags) }
    }

    /// The card with identity `id` and the generated `fields`.
    pub fn from_fields(id: i64, fields: CardFields) -> (r: CardJson)
        ensures
            r.id == id,
            r.front@ == fields.front@,
            r.back@ == fields.back@,
            r.tags.deep_view() == fields.tags.deep_view(),
    {
        CardJson { id, front: fields.front, back: fields.back, tags: fields.tags }
    }
}

/// The separator between two tags in their stored form.
pub open spec fn tag_separator() -> char {
    ','
}

/// The tags written one after another, separated by commas.
pub open spec fn joined(tags: Seq<Seq<char>>) -> Seq<char>
    decreases tags.len(),
{
    if tags.len() == 0 {
        Seq::empty()
    } else if tags.len() == 1 {
        tags[0]
    } else {
        joined(tags.drop_last()).push(tag_separator()) + tags.last()
    }
}

/// The pieces of `s` between its commas, from left to right; a text without
/// a comma is one piece.
pub open spec fn pieces(s: Seq<char>) -> Seq<Seq<char>>
    decreases s.len(),
{
    if s.len() == 0 {
        seq![Seq::empty()]
    } else {
        let p = pieces(s.drop_last());
        if s.last() == tag_separator() {
            p.push(Seq::empty())
        } else {
            p.update(p.len() - 1, p.last().push(s.last()))
        }
    }
}

/// How many tags a stored form holds.
pub open spec fn decoded_len(s: Seq<char>) -> nat {
    if s.len() == 0 {
        0
    } else {
        pieces(s).len()
    }
}

/// The tags with every repetition of an earlier tag left out, in the order
/// of first appearance.
pub open spec fn distinct(tags: Seq<Seq<char>>) -> Seq<Seq<char>>
    decreases tags.len(),
{
    if tags.len() == 0 {
        Seq::empty()
    } else {
        let p = distinct(tags.drop_last());
        if p.contains(tags.last()) {
            p
        } else {
            p.push(tags.last())
        }
    }
}

/// What `str::trim` returns for a text.
pub uninterp spec fn trim_of(s: Seq<char>) -> Seq<char>;

/// Relies on `str::trim`: removes leading and trailing white space; the result
/// depends on the characters alone.
#[verifier::external_body]
pub(crate) fn trim_str(s: &str) -> (r: String)
    ensures
        r@ == trim_of(s@),
{
    s.trim().to_owned()
}

proof fn lemma_pieces_nonempty(s: Seq<char>)
    ensures
        pieces(s).len() >= 1,
    decreases s.len(),
{
    if s.len() > 0 {
        lemma_pieces_nonempty(s.drop_last());
    }
}

/// Appending text without a comma extends the last piece.
proof fn lemma_pieces_append(a: Seq<char>, t: Seq<char>)
    requires
        !t.contains(tag_separator()),
    ensures
        pieces(a + t) == pieces(a).update(pieces(a).len() - 1, pieces(a).last() + t),
    decreases t.len(),
{
    lemma_pieces_nonempty(a);
    if t.len() == 0 {
        assert(a + t =~= a);
        assert(pieces(a).last() + t =~= pieces(a).last());
        assert(pieces(a).update(pieces(a).len() - 1, pieces(a).last()) =~= pieces(a));
    } else {
        let u = t.drop_last();
        assert(!u.contains(tag_separator())) by {
            if u.contains(tag_separator()) {
                let j = choose|j: int| 0 <= j < u.len() && u[j] == tag_separator();
                assert(t[j] == tag_separator());
            }
        }
        lemma_pieces_append(a, u);
        assert((a + t).drop_last() =~= a + u);
        assert(t.last() != tag_separator()) by {
            assert(t[t.len() - 1] == t.last());
        }
        lemma_pieces_nonempty(a + u);
        assert((pieces(a).last() + u).push(t.last()) =~= pieces(a).last() + t);
        assert(pieces(a + t) =~= pieces(a).update(pieces(a).len() - 1, pieces(a).last() + t));
    }
}

/// The stored form keeps tags apart: as long as no tag holds a comma,
/// splitting the joined tags at their commas gives back every tag.
pub proof fn lemma_pieces_of_joined(tags: Seq<Seq<char>>)
    requires
        tags.len() > 0,
        forall|i: int| 0 <= i < tags.len() ==> !(#[trigger] tags[i]).contains(tag_separator()),
    ensures
        pieces(joined(tags)) == tags,
    decreases tags.len(),
{
    let last = tags.last();
    assert(!last.contains(tag_separator())) by {
        assert(tags[tags.len() - 1] == last);
    }
    if tags.len() == 1 {
        lemma_pieces_append(Seq::empty(), last);
        assert(Seq::<char>::empty() + last =~= last);
        assert(Seq::<char>::empty() + last =~= tags[0]);
        assert(pieces(Seq::<char>::empty()).update(0, Seq::<char>::empty() + last) =~= tags);
    } else {
        let front = tags.drop_last();
        assert forall|i: int| 0 <= i < front.len() implies !(#[trigger] front[i]).contains(
            tag_separator(),
        ) by {
            assert(front[i] == tags[i]);
        }
        lemma_pieces_of_joined(front);
        let head = joined(front).push(tag_separator());
        assert(head.drop_last() =~= joined(front));
        lemma_pieces_nonempty(joined(front));
        assert(pieces(head) == front.push(Seq::<char>::empty()));
        lemma_pieces_append(head, last);
        assert(Seq::<char>::empty() + last =~= last);
        assert(front.push(Seq::<char>::empty()).update(front.len() as int, last) =~= tags);
    }
}

/// The stored form of a tag list: the tags joined by commas.
pub fn encode_tags(tags: &Vec<String>) -> (r: String)
    ensures
        r@ == joined(tags.deep_view()),
{
    let mut out = String::new();
    let sep = ",";
    proof {
        reveal_strlit(",");
    }
    let mut i: usize = 0;
    while i < tags.len()
        invariant
            i <= tags.len(),
            sep@ == seq![tag_separator()],
            out@ == joined(tags.deep_view().subrange(0, i as int)),
        decreases tags.len() - i,
    {
        proof {
            let pre = tags.deep_view().subrange(0, i as int);
            let post = tags.deep_view().subrange(0, i + 1);
            assert(post.drop_last() =~= pre);
        }
        if i > 0 {
            out.append(sep);
        }
        out.append(tags[i].as_str());
        proof {
            let post = tags.deep_view().subrange(0, i + 1);
            if i == 0 {
                assert(out@ =~= post[0]);
            } else {
                assert(out@ =~= joined(post));
            }
        }
        i = i + 1;
    }
    proof {
        assert(tags.deep_view().subrange(0, tags.len() as int) =~= tags.deep_view());
    }
    out
}

/// The tags as a set: each tag once, in the order of its first appearance.
pub fn distinct_tags(tags: &Vec<String>) -> (r: Vec<String>)
    ensures
        r.deep_view() == distinct(tags.deep_view()),
{
    let mut out: Vec<String> = Vec::new();
    let mut i: usize = 0;
    while i < tags.len()
        invariant
            i <= tags.len(),
            out.deep_view() == distinct(tags.deep_view().subrange(0, i as int)),
        decreases tags.len() - i,
    {
        proof {
            assert(tags.deep_view().subrange(0, i + 1).drop_last() =~= tags.deep_view().subrange(
                0,
                i as int,
            ));
        }
        let mut seen = false;
        let mut k: usize = 0;
        while k < out.len()
            invariant
                i < tags.len(),
                k <= out.len(),
                seen <==> exists|j: int| 0 <= j < k && out.deep_view()[j] == tags.deep_view()[i as int],
            decreases out.len() - k,
        {
            proof {
                assert(out.deep_view()[k as int] == out@[k as int]@);
                assert(tags.deep_view()[i as int] == tags@[i as int]@);
            }
            if out[k] == tags[i] {
                seen = true;
            }
            k = k + 1;
        }
        if !seen {
            let t = tags[i].clone();
            let ghost before = out.deep_view();
            out.push(t);
            proof {
                assert(out.deep_view() =~= before.push(tags.deep_view()[i as int]));
            }
        }
        i = i + 1;
    }
    proof {
        assert(tags.deep_view().subrange(0, tags.len() as int) =~= tags.deep_view());
    }
    out
}

/// The tag list held in a stored form: none for an empty text, else each
/// piece between commas with surrounding white space removed.
pub fn decode_tags(s: &str) -> (r: Vec<String>)
    ensures
        s@.len() == 0 ==> r@.len() == 0,
        s@.len() > 0 ==> r@.len() == pieces(s@).len(),
        s@.len() > 0 ==> forall|k: int|
            0 <= k < r@.len() ==> #[trigger] r@[k]@ == trim_of(pieces(s@)[k]),
{
    let mut out: Vec<String> = Vec::new();
    let n: usize = s.unicode_len();
    if n == 0 {
        return out;
    }
    let mut start: usize = 0;
    let mut i: usize = 0;
    while i < n
        invariant
            n == s@.len(),
            start <= i <= n,
            out@.len() + 1 == pieces(s@.subrange(0, i as int)).len(),
            forall|k: int|
                0 <= k < out@.len() ==> #[trigger] out@[k]@ == trim_of(
                    pieces(s@.subrange(0, i as int))[k],
                ),
            pieces(s@.subrange(0, i as int)).last() == s@.subrange(start as int, i as int),
        decreases n - i,
    {
        proof {
            assert(s@.subrange(0, i + 1).drop_last() =~= s@.subrange(0, i as int));
            lemma_pieces_nonempty(s@.subrange(0, i as int));
        }
        let c = s.get_char(i);
        if c == ',' {
            let piece = s.substring_char(start, i);
            let t = trim_str(piece);
            out.push(t);
            start = i + 1;
            proof {
                assert(s@.subrange(start as int, i + 1) =~= Seq::<char>::empty());
            }
        } else {
            proof {
                assert(s@.subrange(start as int, i + 1) =~= s@.subrange(start as int, i as int).push(
                    c,
                ));
            }
        }
        i = i + 1;
    }
    let last = s.substring_char(start, n);
    let t = trim_str(last);
    out.push(t);
    proof {
        assert(s@.subrange(0, n as int) =~= s@);
    }
    out
}

} // verus!
