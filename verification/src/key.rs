use vstd::prelude::*;
use vstd::string::StringExecFns;
use crate::numeral::{all_digits, decimal, is_digit, lemma_decimal_injective, lemma_decimal_writes, push_decimal};

verus! {

/// The separator between the three fields of a cache key.
pub open spec fn delimiter() -> char {
    ':'
}

/// The cache key of a request: the URL, the width and the height, joined by the delimiter.
pub open spec fn cache_key_of(url: Seq<char>, width: u32, height: u32) -> Seq<char> {
    url + seq![delimiter()] + decimal(width as nat) + seq![delimiter()] + decimal(height as nat)
}

/// Derives the cache key of a request for `url` at `width` by `height`.
pub fn cache_key(url: &str, width: u32, height: u32) -> (key: String)
    ensures
        key@ == cache_key_of(url@, width, height),
{
    proof {
        reveal_strlit(":");
    }
    let mut key = String::from_str(url);
    key.append(":");
    push_decimal(&mut key, width);
    key.append(":");
    push_decimal(&mut key, height);
    assert(key@ =~= cache_key_of(url@, width, height));
    key
}

/// A string that ends in a delimiter and digits splits there in one way only.
proof fn lemma_split_at_last_delimiter(
    head1: Seq<char>,
    tail1: Seq<char>,
    head2: Seq<char>,
    tail2: Seq<char>,
)
    requires
        all_digits(tail1),
        all_digits(tail2),
        head1 + seq![delimiter()] + tail1 == head2 + seq![delimiter()] + tail2,
    ensures
        head1 == head2,
        tail1 == tail2,
{
    let joined1 = head1 + seq![delimiter()] + tail1;
    let joined2 = head2 + seq![delimiter()] + tail2;
    assert(joined1.len() == head1.len() + 1 + tail1.len());
    assert(joined2.len() == head2.len() + 1 + tail2.len());
    if tail1.len() < tail2.len() {
        let at = head1.len() as int;
        assert(joined1[at] == delimiter());
        assert(joined2[at] == tail2[at - head2.len() - 1]);
        assert(is_digit(tail2[at - head2.len() - 1]));
        assert(false);
    }
    if tail2.len() < tail1.len() {
        let at = head2.len() as int;
        assert(joined2[at] == delimiter());
        assert(joined1[at] == tail1[at - head1.len() - 1]);
        assert(is_digit(tail1[at - head1.len() - 1]));
        assert(false);
    }
    assert(head1 =~= joined1.take(head1.len() as int));
    assert(head2 =~= joined2.take(head2.len() as int));
    assert(tail1 =~= joined1.skip(head1.len() as int + 1));
    assert(tail2 =~= joined2.skip(head2.len() as int + 1));
}

/// Two requests share a cache key exactly when they agree on the URL, the width and the
/// height: the key is a function of the three, and from the key each of them can be told.
pub proof fn lemma_cache_key_identifies_request(
    url1: Seq<char>,
    width1: u32,
    height1: u32,
    url2: Seq<char>,
    width2: u32,
    height2: u32,
)
    ensures
        cache_key_of(url1, width1, height1) == cache_key_of(url2, width2, height2) <==> (url1
            == url2 && width1 == width2 && height1 == height2),
{
    if cache_key_of(url1, width1, height1) == cache_key_of(url2, width2, height2) {
        lemma_decimal_writes(width1 as nat);
        lemma_decimal_writes(width2 as nat);
        lemma_decimal_writes(height1 as nat);
        lemma_decimal_writes(height2 as nat);
        lemma_split_at_last_delimiter(
            url1 + seq![delimiter()] + decimal(width1 as nat),
            decimal(height1 as nat),
            url2 + seq![delimiter()] + decimal(width2 as nat),
            decimal(height2 as nat),
        );
        lemma_split_at_last_delimiter(
            url1,
            decimal(width1 as nat),
            url2,
            decimal(width2 as nat),
        );
        lemma_decimal_injective(width1 as nat, width2 as nat);
        lemma_decimal_injective(height1 as nat, height2 as nat);
    }
}

} // verus!
