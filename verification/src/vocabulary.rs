//! Closed vocabularies: attribute values that sysfs writes as one token each.

use crate::error::{IoError, ParseError, SysfsError};
use crate::text::{chars_of, next_word, same_text, trim, trimmed, words};
use vstd::prelude::*;

verus! {

/// A value of a closed vocabulary, with the token that stands for it.
pub trait SysfsEnum: Sized + Copy {
    /// The token that stands for this value, exactly as sysfs spells it.
    spec fn token(self) -> Seq<char>;

    /// The token that stands for this value.
    fn as_str(&self) -> (s: &'static str)
        ensures
            s@ == self.token(),
    ;

    /// Every value of the vocabulary, each once.
    fn all() -> (v: Vec<Self>)
        ensures
            v@.no_duplicates(),
            forall|x: Self| v@.contains(x),
    ;

    /// Whether two values are the same.
    fn same(&self, other: &Self) -> (r: bool)
        ensures
            r == (*self == *other),
    ;

    /// No two values share a token.
    proof fn lemma_token_injective(a: Self, b: Self)
        requires
            a.token() == b.token(),
        ensures
            a == b,
    ;
}

/// The value that `s` stands for, if it is a token of the vocabulary.
pub open spec fn parse_spec<T: SysfsEnum>(s: Seq<char>) -> Option<T> {
    if exists|v: T| v.token() == s {
        Some(choose|v: T| v.token() == s)
    } else {
        None
    }
}

/// What a text denotes that is to be a token and nothing else: the value of
/// that token, or the error that says it is none.
pub open spec fn token_value<T: SysfsEnum>(s: Seq<char>) -> Result<T, ParseError> {
    match parse_spec::<T>(s) {
        Some(v) => Ok(v),
        None => Err(ParseError::UnknownToken),
    }
}

/// The values that the tokens stand for, in order, if all of them are tokens
/// of the vocabulary; otherwise nothing.
pub open spec fn parse_all_spec<T: SysfsEnum>(tokens: Seq<Seq<char>>) -> Option<Seq<T>>
    decreases tokens.len(),
{
    if tokens.len() == 0 {
        Some(Seq::empty())
    } else {
        match (parse_spec::<T>(tokens[0]), parse_all_spec::<T>(tokens.drop_first())) {
            (Some(v), Some(rest)) => Some(seq![v] + rest),
            _ => None,
        }
    }
}

/// What the content of a single-valued attribute file denotes: the value of
/// its one token, white space around it set aside.
pub open spec fn value_spec<T: SysfsEnum>(read: Result<Seq<char>, IoError>) -> Result<
    T,
    SysfsError,
> {
    match read {
        Err(e) => Err(SysfsError::Io(e)),
        Ok(text) => match parse_spec::<T>(trim(text)) {
            Some(v) => Ok(v),
            None => Err(SysfsError::Parse(ParseError::UnknownToken)),
        },
    }
}

/// What the content of a multi-valued attribute file denotes: the set of the
/// values of its tokens, if every one of them is in the vocabulary.
pub open spec fn set_spec<T: SysfsEnum>(read: Result<Seq<char>, IoError>) -> Result<
    Set<T>,
    SysfsError,
> {
    match read {
        Err(e) => Err(SysfsError::Io(e)),
        Ok(text) => match parse_all_spec::<T>(words(text)) {
            Some(values) => Ok(values.to_set()),
            None => Err(SysfsError::Parse(ParseError::UnknownToken)),
        },
    }
}

/// The values of a set that was read, as a mathematical set.
pub open spec fn read_set<T: SysfsEnum>(read: Result<ValueSet<T>, SysfsError>) -> Result<
    Set<T>,
    SysfsError,
> {
    match read {
        Ok(set) => Ok(set@),
        Err(e) => Err(e),
    }
}

/// The content of a read as plain text.
pub open spec fn read_text(read: Result<String, IoError>) -> Result<Seq<char>, IoError> {
    match read {
        Ok(s) => Ok(s@),
        Err(e) => Err(e),
    }
}

/// Parsing the token of a value gives the value back.
pub proof fn lemma_round_trip<T: SysfsEnum>(v: T)
    ensures
        parse_spec::<T>(v.token()) == Some(v),
{
    let w = choose|w: T| w.token() == v.token();
    T::lemma_token_injective(w, v);
}

/// A text stands for a value exactly if it is that value's token.
pub proof fn lemma_parse_exact<T: SysfsEnum>(s: Seq<char>, v: T)
    ensures
        parse_spec::<T>(s) == Some(v) <==> s == v.token(),
{
    if s == v.token() {
        lemma_round_trip(v);
    }
}

/// The value that `token` stands for.
pub fn parse_token<T: SysfsEnum>(token: &[char]) -> (r: Option<T>)
    ensures
        r == parse_spec::<T>(token@),
{
    let values = T::all();
    let mut i: usize = 0;
    while i < values.len()
        invariant
            i <= values@.len(),
            forall|x: T| values@.contains(x),
            forall|j: int| 0 <= j < i ==> values@[j].token() != token@,
        decreases values@.len() - i,
    {
        let candidate = values[i];
        let spelled = chars_of(candidate.as_str());
        if same_text(token, spelled.as_slice()) {
            proof {
                lemma_round_trip(candidate);
            }
            return Some(candidate);
        }
        i = i + 1;
    }
    proof {
        assert forall|v: T| v.token() != token@ by {
            assert(values@.contains(v));
            let j = choose|j: int| 0 <= j < values@.len() && values@[j] == v;
            assert(values@[j].token() != token@);
        }
    }
    None
}

/// The value that `text` stands for; the text must be the token and nothing
/// else.
pub fn parse<T: SysfsEnum>(text: &str) -> (r: Result<T, ParseError>)
    ensures
        r == token_value::<T>(text@),
{
    let chars = chars_of(text);
    match parse_token::<T>(chars.as_slice()) {
        Some(v) => Ok(v),
        None => Err(ParseError::UnknownToken),
    }
}

/// The value of a single-valued attribute, from the outcome of reading its
/// file.
pub fn sysfs_parse<T: SysfsEnum>(read: Result<String, IoError>) -> (r: Result<T, SysfsError>)
    ensures
        r == value_spec::<T>(read_text(read)),
{
    match read {
        Err(e) => Err(SysfsError::Io(e)),
        Ok(content) => {
            let chars = chars_of(content.as_str());
            match parse_token::<T>(trimmed(chars.as_slice())) {
                Some(v) => Ok(v),
                None => Err(SysfsError::Parse(ParseError::UnknownToken)),
            }
        },
    }
}

/// A finite set of values of one vocabulary.
#[derive(Debug)]
pub struct ValueSet<T> {
    items: Vec<T>,
}

impl<T: SysfsEnum> View for ValueSet<T> {
    type V = Set<T>;

    closed spec fn view(&self) -> Set<T> {
        self.items@.to_set()
    }
}

impl<T> ValueSet<T> {
    #[verifier::type_invariant]
    spec fn distinct(self) -> bool {
        self.items@.no_duplicates()
    }
}

impl<T: SysfsEnum> ValueSet<T> {
    /// The set is finite.
    pub proof fn lemma_finite(self)
        ensures
            self@.finite(),
    {
        vstd::seq_lib::seq_to_set_is_finite(self.items@);
    }

    /// The empty set.
    pub fn new() -> (s: Self)
        ensures
            s@ == Set::<T>::empty(),
    {
        let s = ValueSet { items: Vec::new() };
        assert(s.items@.to_set() =~= Set::<T>::empty());
        s
    }

    /// Whether `value` is in the set.
    pub fn contains(&self, value: T) -> (r: bool)
        ensures
            r == self@.contains(value),
    {
        let mut i: usize = 0;
        while i < self.items.len()
            invariant
                i <= self.items@.len(),
                forall|j: int| 0 <= j < i ==> self.items@[j] != value,
            decreases self.items@.len() - i,
        {
            if self.items[i].same(&value) {
                return true;
            }
            i = i + 1;
        }
        false
    }

    /// Puts `value` into the set; says whether it was new.
    pub fn insert(&mut self, value: T) -> (fresh: bool)
        ensures
            final(self)@ == old(self)@.insert(value),
            fresh == !old(self)@.contains(value),
    {
        if self.contains(value) {
            assert(self@.insert(value) =~= self@);
            false
        } else {
            let mut items = self.to_vec();
            proof {
                items@.lemma_push_to_set_commute(value);
            }
            items.push(value);
            *self = ValueSet { items };
            true
        }
    }

    /// The number of values in the set.
    pub fn len(&self) -> (n: usize)
        ensures
            n == self@.len(),
    {
        proof {
            use_type_invariant(self);
            self.items@.unique_seq_to_set();
        }
        self.items.len()
    }

    /// The values of the set, each once, in no particular order.
    pub fn to_vec(&self) -> (v: Vec<T>)
        ensures
            v@.no_duplicates(),
            v@.to_set() == self@,
    {
        proof {
            use_type_invariant(self);
        }
        let mut v: Vec<T> = Vec::new();
        let mut i: usize = 0;
        while i < self.items.len()
            invariant
                i <= self.items@.len(),
                v@ == self.items@.take(i as int),
            decreases self.items@.len() - i,
        {
            v.push(self.items[i]);
            assert(self.items@.take(i + 1) =~= self.items@.take(i as int).push(self.items@[i as int]));
            i = i + 1;
        }
        assert(self.items@.take(self.items@.len() as int) =~= self.items@);
        v
    }
}

/// The values of a multi-valued attribute, from the outcome of reading its
/// file. One token outside the vocabulary fails the whole read.
pub fn sysfs_parse_set<T: SysfsEnum>(read: Result<String, IoError>) -> (r: Result<
    ValueSet<T>,
    SysfsError,
>)
    ensures
        match set_spec::<T>(read_text(read)) {
            Ok(values) => r matches Ok(set) && set@ == values,
            Err(e) => r matches Err(f) && f == e,
        },
{
    let content = match read {
        Err(e) => {
            return Err(SysfsError::Io(e));
        },
        Ok(content) => content,
    };
    let chars = chars_of(content.as_str());
    let mut rest: &[char] = chars.as_slice();
    let mut set: ValueSet<T> = ValueSet::new();
    let ghost mut done: Seq<T> = Seq::empty();
    loop
        invariant
            read == Ok::<String, IoError>(content),
            set@ == done.to_set(),
            match parse_all_spec::<T>(words(rest@)) {
                Some(tail) => parse_all_spec::<T>(words(content@)) == Some(done + tail),
                None => parse_all_spec::<T>(words(content@)) is None,
            },
        decreases rest@.len(),
    {
        match next_word(rest) {
            None => {
                assert(done + Seq::<T>::empty() =~= done);
                return Ok(set);
            },
            Some((word, tail)) => {
                let ghost tokens = words(rest@);
                assert(tokens[0] == word@);
                assert(tokens.drop_first() =~= words(tail@));
                match parse_token::<T>(word) {
                    None => {
                        return Err(SysfsError::Parse(ParseError::UnknownToken));
                    },
                    Some(v) => {
                        proof {
                            done.lemma_push_to_set_commute(v);
                            match parse_all_spec::<T>(words(tail@)) {
                                Some(later) => {
                                    assert(done + (seq![v] + later) =~= done.push(v) + later);
                                },
                                None => {},
                            }
                            done = done.push(v);
                        }
                        set.insert(v);
                        rest = tail;
                    },
                }
            },
        }
    }
}

} // verus!
