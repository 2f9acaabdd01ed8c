use vstd::prelude::*;

verus! {

/// What decoding bytes as UTF-8, with each invalid sequence replaced by
/// U+FFFD, gives.
pub uninterp spec fn utf8_lossy(b: Seq<u8>) -> Seq<char>;

/// Every byte is 7-bit ASCII.
pub open spec fn all_ascii(b: Seq<u8>) -> bool {
    forall|i: int| 0 <= i < b.len() ==> b[i] < 128
}

/// The characters of ASCII bytes, one per byte.
pub open spec fn ascii_chars(b: Seq<u8>) -> Seq<char> {
    b.map_values(|x: u8| x as char)
}

/// Relies on `String::from_utf8_lossy`: the result depends on the bytes
/// alone, and ASCII bytes, being valid UTF-8, come back one character each.
#[verifier::external_body]
fn decode_lossy(b: &Vec<u8>) -> (r: String)
    ensures
        r@ == utf8_lossy(b@),
        all_ascii(b@) ==> r@ == ascii_chars(b@),
{
    String::from_utf8_lossy(b.as_slice()).into_owned()
}

/// A typed reading of the bytes behind a hash.
#[derive(Clone, Debug, PartialEq, Eq)]
pub enum Form {
    /// Any bytes at all.
    Binary(Vec<u8>),
    /// Text.
    Ascii(String),
    /// A 256-bit digest.
    Sha256([u8; 32]),
}

/// The mathematical value of a `Form`.
pub enum FormModel {
    Binary(Seq<u8>),
    Ascii(Seq<char>),
    Sha256(Seq<u8>),
}

impl View for Form {
    type V = FormModel;

    open spec fn view(&self) -> FormModel {
        match self {
            Form::Binary(b) => FormModel::Binary(b@),
            Form::Ascii(t) => FormModel::Ascii(t@),
            Form::Sha256(h) => FormModel::Sha256(h@),
        }
    }
}

/// A test on raw bytes, held by a branch of the tree.
#[derive(Clone, Copy, PartialEq, Eq, Structural, Debug)]
pub enum Condition {
    /// Every payload.
    Always,
    /// Payloads of exactly this many bytes.
    LengthIs(usize),
    /// Payloads whose bytes are all 7-bit ASCII.
    AllAscii,
}

/// The form that a leaf builds.
#[derive(Clone, Copy, PartialEq, Eq, Structural, Debug)]
pub enum FormKind {
    Binary,
    Ascii,
    Sha256,
}

pub open spec fn holds(c: Condition, b: Seq<u8>) -> bool {
    match c {
        Condition::Always => true,
        Condition::LengthIs(n) => b.len() == n,
        Condition::AllAscii => all_ascii(b),
    }
}

/// The text of `b`: its characters one per byte when all are ASCII, else
/// its lossy UTF-8 decoding.
pub open spec fn text_of(b: Seq<u8>) -> Seq<char> {
    if all_ascii(b) {
        ascii_chars(b)
    } else {
        utf8_lossy(b)
    }
}

/// The form that a leaf of kind `k` builds from `b`.
pub open spec fn form_of(k: FormKind, b: Seq<u8>) -> FormModel {
    match k {
        FormKind::Binary => FormModel::Binary(b),
        FormKind::Ascii => FormModel::Ascii(text_of(b)),
        FormKind::Sha256 => FormModel::Sha256(b),
    }
}

/// A tree that classifies payloads: a branch tries its children in order
/// when its condition holds, and a leaf always builds its form.
#[derive(Debug)]
pub enum SignalFormTree {
    Branch(Condition, Vec<SignalFormTree>),
    Leaf(FormKind),
}

/// The form that tree `t` gives `b`: depth first, the first match wins.
pub open spec fn classify(t: SignalFormTree, b: Seq<u8>) -> Option<FormModel>
    decreases t,
{
    match t {
        SignalFormTree::Leaf(k) => Some(form_of(k, b)),
        SignalFormTree::Branch(c, kids) => if holds(c, b) {
            first_match(kids@, b)
        } else {
            None
        },
    }
}

/// The form that the first of `kids` to match gives `b`.
pub open spec fn first_match(kids: Seq<SignalFormTree>, b: Seq<u8>) -> Option<FormModel>
    decreases kids,
{
    if kids.len() == 0 {
        None
    } else {
        match classify(kids[0], b) {
            Some(f) => Some(f),
            None => first_match(kids.subrange(1, kids.len() as int), b),
        }
    }
}

/// Every digest leaf of `t` is reached only through a branch that asks for
/// exactly 32 bytes (`sized` says one already did).
pub open spec fn digest_guarded(t: SignalFormTree, sized: bool) -> bool
    decreases t,
{
    match t {
        SignalFormTree::Leaf(k) => k == FormKind::Sha256 ==> sized,
        SignalFormTree::Branch(c, kids) => all_digest_guarded(
            kids@,
            sized || c == Condition::LengthIs(32),
        ),
    }
}

pub open spec fn all_digest_guarded(kids: Seq<SignalFormTree>, sized: bool) -> bool
    decreases kids,
{
    kids.len() > 0 ==> digest_guarded(kids[0], sized) && all_digest_guarded(
        kids.subrange(1, kids.len() as int),
        sized,
    )
}

/// The form the standard tree gives: a digest for exactly 32 bytes, else
/// text for all-ASCII bytes, else binary.
pub open spec fn standard_form(b: Seq<u8>) -> FormModel {
    if b.len() == 32 {
        FormModel::Sha256(b)
    } else if all_ascii(b) {
        FormModel::Ascii(ascii_chars(b))
    } else {
        FormModel::Binary(b)
    }
}

/// Whether `c` holds of `b`.
pub fn check(c: Condition, b: &Vec<u8>) -> (r: bool)
    ensures
        r == holds(c, b@),
{
    match c {
        Condition::Always => true,
        Condition::LengthIs(n) => b.len() == n,
        Condition::AllAscii => {
            let mut i: usize = 0;
            while i < b.len()
                invariant
                    c == Condition::AllAscii,
                    i <= b@.len(),
                    forall|j: int| 0 <= j < i ==> b@[j] < 128,
                decreases b@.len() - i,
            {
                if b[i] >= 128 {
                    assert(b@[i as int] >= 128);
                    return false;
                }
                i = i + 1;
            }
            true
        },
    }
}

/// The form that a leaf of kind `k` builds from `b`.
pub fn build(k: FormKind, b: &Vec<u8>) -> (r: Form)
    requires
        k == FormKind::Sha256 ==> b@.len() == 32,
    ensures
        r@ == form_of(k, b@),
{
    match k {
        FormKind::Binary => Form::Binary(b.clone()),
        FormKind::Ascii => Form::Ascii(decode_lossy(b)),
        FormKind::Sha256 => {
            let mut h: [u8; 32] = [0u8; 32];
            let mut i: usize = 0;
            while i < 32
                invariant
                    i <= 32,
                    b@.len() == 32,
                    forall|j: int| 0 <= j < i ==> h@[j] == b@[j],
                decreases 32 - i,
            {
                h[i] = b[i];
                i = i + 1;
            }
            assert(h@ =~= b@);
            Form::Sha256(h)
        },
    }
}

impl SignalFormTree {
    fn process_in(&self, b: &Vec<u8>, Ghost(sized): Ghost<bool>) -> (r: Option<Form>)
        requires
            digest_guarded(*self, sized),
            sized ==> b@.len() == 32,
        ensures
            r.is_none() <==> classify(*self, b@).is_none(),
            r matches Some(f) ==> classify(*self, b@) == Some(f@),
        decreases self,
    {
        match self {
            SignalFormTree::Leaf(k) => Some(build(*k, b)),
            SignalFormTree::Branch(c, kids) => {
                if !check(*c, b) {
                    return None;
                }
                let ghost inner = sized || *c == Condition::LengthIs(32);
                let mut i: usize = 0;
                assert(kids@.subrange(0, kids@.len() as int) =~= kids@);
                while i < kids.len()
                    invariant
                        i <= kids@.len(),
                        inner ==> b@.len() == 32,
                        all_digest_guarded(kids@.subrange(i as int, kids@.len() as int), inner),
                        first_match(kids@, b@) == first_match(
                            kids@.subrange(i as int, kids@.len() as int),
                            b@,
                        ),
                        classify(*self, b@) == first_match(kids@, b@),
                        decreases_to!(*self => kids@),
                    decreases kids@.len() - i,
                {
                    let ghost rest = kids@.subrange(i as int, kids@.len() as int);
                    assert(rest[0] == kids@[i as int]);
                    assert(rest.subrange(1, rest.len() as int) =~= kids@.subrange(
                        i + 1,
                        kids@.len() as int,
                    ));
                    assert(decreases_to!(*self => kids@[i as int]));
                    match kids[i].process_in(b, Ghost(inner)) {
                        Some(f) => {
                            return Some(f);
                        },
                        None => {},
                    }
                    i = i + 1;
                }
                None
            },
        }
    }

    /// Classifies `b`: a leaf builds its form; a branch whose condition holds
    /// gives the form of the first child that gives one; otherwise nothing.
    pub fn process(&self, b: &Vec<u8>) -> (r: Option<Form>)
        requires
            digest_guarded(*self, b@.len() == 32),
        ensures
            r.is_none() <==> classify(*self, b@).is_none(),
            r matches Some(f) ==> classify(*self, b@) == Some(f@),
    {
        self.process_in(b, Ghost(b@.len() == 32))
    }

    /// The standard tree: a 32-byte branch with a digest leaf, then an ASCII
    /// branch with a text leaf, then a binary leaf, tried in that order.
    /// Its digest leaf is guarded, so it can process every payload.
    pub fn standard() -> (t: SignalFormTree)
        ensures
            forall|sized: bool| digest_guarded(t, sized),
            forall|b: Seq<u8>| classify(t, b) == Some(standard_form(b)),
    {
        let mut digest_kids: Vec<SignalFormTree> = Vec::new();
        digest_kids.push(SignalFormTree::Leaf(FormKind::Sha256));
        let mut text_kids: Vec<SignalFormTree> = Vec::new();
        text_kids.push(SignalFormTree::Leaf(FormKind::Ascii));
        let mut kids: Vec<SignalFormTree> = Vec::new();
        kids.push(SignalFormTree::Branch(Condition::LengthIs(32), digest_kids));
        kids.push(SignalFormTree::Branch(Condition::AllAscii, text_kids));
        kids.push(SignalFormTree::Leaf(FormKind::Binary));
        let t = SignalFormTree::Branch(Condition::Always, kids);
        proof {
            lemma_standard_tree(t, false);
            lemma_standard_tree(t, true);
        }
        t
    }
}

/// `t` is a branch on `c` whose one child is a leaf of kind `k`.
spec fn one_leaf(t: SignalFormTree, c: Condition, k: FormKind) -> bool {
    match t {
        SignalFormTree::Branch(c2, kids) => c2 == c && kids@ =~= seq![SignalFormTree::Leaf(k)],
        _ => false,
    }
}

/// `t` has the shape that `SignalFormTree::standard` builds.
spec fn is_standard(t: SignalFormTree) -> bool {
    match t {
        SignalFormTree::Branch(c, kids) => {
            &&& c == Condition::Always
            &&& kids@.len() == 3
            &&& one_leaf(kids@[0], Condition::LengthIs(32), FormKind::Sha256)
            &&& one_leaf(kids@[1], Condition::AllAscii, FormKind::Ascii)
            &&& kids@[2] == SignalFormTree::Leaf(FormKind::Binary)
        },
        _ => false,
    }
}

proof fn lemma_one_leaf(t: SignalFormTree, c: Condition, k: FormKind, sized: bool)
    requires
        one_leaf(t, c, k),
        k == FormKind::Sha256 ==> sized || c == Condition::LengthIs(32),
    ensures
        digest_guarded(t, sized),
        forall|b: Seq<u8>|
            classify(t, b) == if holds(c, b) {
                Some(form_of(k, b))
            } else {
                None
            },
{
    if let SignalFormTree::Branch(_, kids) = t {
        let s = kids@;
        let inner = sized || c == Condition::LengthIs(32);
        assert(s.subrange(1, 1) =~= Seq::<SignalFormTree>::empty());
        assert(all_digest_guarded(s.subrange(1, 1), inner));
        assert(digest_guarded(s[0], inner));
        assert forall|b: Seq<u8>|
            classify(t, b) == if holds(c, b) {
                Some(form_of(k, b))
            } else {
                None
            } by {
            assert(classify(s[0], b) == Some(form_of(k, b)));
            assert(first_match(s, b) == Some(form_of(k, b)));
        }
    }
}

proof fn lemma_standard_tree(t: SignalFormTree, sized: bool)
    requires
        is_standard(t),
    ensures
        digest_guarded(t, sized),
        forall|b: Seq<u8>| classify(t, b) == Some(standard_form(b)),
{
    if let SignalFormTree::Branch(_, kids) = t {
        let s = kids@;
        lemma_one_leaf(s[0], Condition::LengthIs(32), FormKind::Sha256, sized);
        lemma_one_leaf(s[1], Condition::AllAscii, FormKind::Ascii, sized);
        let s1 = s.subrange(1, 3);
        let s2 = s1.subrange(1, 2);
        let s3 = s2.subrange(1, 1);
        assert(s1[0] == s[1] && s2[0] == s[2]);
        assert(s3 =~= Seq::<SignalFormTree>::empty());
        assert(all_digest_guarded(s3, sized));
        assert(digest_guarded(s2[0], sized));
        assert(all_digest_guarded(s2, sized));
        assert(all_digest_guarded(s1, sized));
        assert(all_digest_guarded(s, sized));
        assert forall|b: Seq<u8>| classify(t, b) == Some(standard_form(b)) by {
            assert(classify(s[0], b) == if b.len() == 32 {
                Some(FormModel::Sha256(b))
            } else {
                None
            });
            assert(classify(s[1], b) == if all_ascii(b) {
                Some(FormModel::Ascii(ascii_chars(b)))
            } else {
                None
            });
            assert(classify(s2[0], b) == Some(FormModel::Binary(b)));
            assert(first_match(s2, b) == Some(FormModel::Binary(b)));
            assert(first_match(s1, b) == if all_ascii(b) {
                Some(FormModel::Ascii(ascii_chars(b)))
            } else {
                Some(FormModel::Binary(b))
            });
        }
    }
}

/// Classifies `b` with the standard tree: a digest for exactly 32 bytes,
/// else text for all-ASCII bytes, else binary.
pub fn classify_payload(b: &Vec<u8>) -> (r: Form)
    ensures
        r@ == standard_form(b@),
{
    let t = SignalFormTree::standard();
    match t.process(b) {
        Some(f) => f,
        None => Form::Binary(b.clone()),
    }
}

} // verus!
