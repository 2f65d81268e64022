use vstd::prelude::*;
use crate::address::{Address, address_views, base58_address};
use crate::error::LutError;

verus! {

/// The texts that a list of strings holds, in order.
pub open spec fn texts_of(list: Seq<String>) -> Seq<Seq<char>> {
    Seq::new(list.len(), |i: int| list[i]@)
}

/// What `serde_json::from_slice::<Vec<String>>` makes of a document: the
/// strings of the JSON array that it holds, or nothing where it holds none.
pub uninterp spec fn json_string_array(document: Seq<u8>) -> Option<Seq<Seq<char>>>;

/// `serde_json::from_slice`, asked for a `Vec<String>`. The result depends
/// on the bytes alone and is given the name `json_string_array`; every error
/// comes back as `None`.
#[verifier::external_body]
fn strings_from_json(document: &[u8]) -> (r: Option<Vec<String>>)
    ensures
        r matches Some(list) ==> json_string_array(document@) == Some(texts_of(list@)),
        r is None ==> json_string_array(document@) is None,
{
    match serde_json::from_slice::<Vec<String>>(document) {
        Ok(list) => Some(list),
        Err(_) => None,
    }
}

/// The one list that the two optional sources make: what was given on the
/// command line first, then what the file held.
pub open spec fn merged_texts(
    flag: Option<Seq<Seq<char>>>,
    file: Option<Seq<Seq<char>>>,
) -> Seq<Seq<char>> {
    let first = match flag {
        Some(list) => list,
        None => Seq::<Seq<char>>::empty(),
    };
    let second = match file {
        Some(list) => list,
        None => Seq::<Seq<char>>::empty(),
    };
    first + second
}

/// Entry `i` is the first text of the list that is no address.
pub open spec fn first_invalid(texts: Seq<Seq<char>>, i: int) -> bool {
    &&& 0 <= i < texts.len()
    &&& base58_address(texts[i]) is None
    &&& forall|j: int| 0 <= j < i ==> (#[trigger] base58_address(texts[j])) is Some
}

/// Every text of the list is an address.
pub open spec fn all_valid(texts: Seq<Seq<char>>) -> bool {
    forall|j: int| 0 <= j < texts.len() ==> (#[trigger] base58_address(texts[j])) is Some
}

/// The addresses that a list of valid texts writes.
pub open spec fn addresses_of(texts: Seq<Seq<char>>) -> Seq<Seq<u8>> {
    Seq::new(texts.len(), |i: int| base58_address(texts[i]).unwrap())
}

/// The error names the first text of the list that is no address.
pub open spec fn names_first_invalid(texts: Seq<Seq<char>>, e: LutError) -> bool {
    e matches LutError::InvalidAddress(value) && exists|i: int|
        first_invalid(texts, i) && value@ == texts[i]
}

/// What resolving a list of texts owes: all addresses, or the first text
/// that is none.
pub open spec fn resolved(texts: Seq<Seq<char>>, r: Result<Vec<Address>, LutError>) -> bool {
    match r {
        Ok(list) => all_valid(texts) && address_views(list@) == addresses_of(texts),
        Err(e) => names_first_invalid(texts, e),
    }
}

/// A list with a first text that is no address is not a list of addresses.
pub proof fn invalid_list_is_not_valid(texts: Seq<Seq<char>>, e: LutError)
    requires
        names_first_invalid(texts, e),
    ensures
        !all_valid(texts),
{
    let value = e->InvalidAddress_0;
    let i = choose|i: int| first_invalid(texts, i) && value@ == texts[i];
    assert(base58_address(texts[i]) is None);
}

/// Appends clones of every string of `from` to `into`.
fn append_texts(into: &mut Vec<String>, from: &Vec<String>)
    ensures
        texts_of(final(into)@) == texts_of(old(into)@) + texts_of(from@),
{
    let ghost before = texts_of(into@);
    let mut i: usize = 0;
    while i < from.len()
        invariant
            i <= from@.len(),
            texts_of(into@) == before + texts_of(from@).subrange(0, i as int),
        decreases from@.len() - i,
    {
        let text = from[i].clone();
        let ghost earlier = into@;
        into.push(text);
        i = i + 1;
        assert(texts_of(into@) =~= texts_of(earlier).push(text@));
        assert(texts_of(from@).subrange(0, i as int) =~= texts_of(from@).subrange(
            0,
            i - 1,
        ).push(text@));
        assert(texts_of(into@) =~= before + texts_of(from@).subrange(0, i as int));
    }
    assert(texts_of(from@).subrange(0, i as int) =~= texts_of(from@));
}

/// Combines the two optional sources of address texts. With neither there
/// is nothing to do and the call fails; otherwise the texts given directly
/// come first, in their order, and those of the file follow in theirs. Both
/// sources may be given together.
pub fn merge_sources(flag: &Option<Vec<String>>, file: &Option<Vec<String>>) -> (r: Result<
    Vec<String>,
    LutError,
>)
    ensures
        flag is None && file is None ==> r == Err::<Vec<String>, LutError>(
            LutError::NoAddressesProvided,
        ),
        flag is Some || file is Some ==> r is Ok && texts_of(r->Ok_0@) == merged_texts(
            match flag {
                Some(list) => Some(texts_of(list@)),
                None => None,
            },
            match file {
                Some(list) => Some(texts_of(list@)),
                None => None,
            },
        ),
{
    if flag.is_none() && file.is_none() {
        return Err(LutError::NoAddressesProvided);
    }
    let mut all: Vec<String> = Vec::new();
    assert(texts_of(all@) =~= Seq::<Seq<char>>::empty());
    if let Some(list) = flag {
        append_texts(&mut all, list);
    }
    if let Some(list) = file {
        append_texts(&mut all, list);
    }
    Ok(all)
}

/// One reading per text, in order.
pub open spec fn readings_match(texts: Seq<Seq<char>>, readings: Seq<Option<Address>>) -> bool {
    &&& readings.len() == texts.len()
    &&& forall|i: int|
        0 <= i < texts.len() ==> match #[trigger] readings[i] {
            Some(a) => base58_address(texts[i]) == Some(a@),
            None => base58_address(texts[i]) is None,
        }
}

/// Reads every text as an address.
fn read_all(texts: &Vec<String>) -> (r: Vec<Option<Address>>)
    ensures
        readings_match(texts_of(texts@), r@),
{
    let mut out: Vec<Option<Address>> = Vec::new();
    let mut i: usize = 0;
    while i < texts.len()
        invariant
            i <= texts@.len(),
            out@.len() == i,
            forall|k: int|
                0 <= k < i ==> match #[trigger] out@[k] {
                    Some(a) => base58_address(texts@[k]@) == Some(a@),
                    None => base58_address(texts@[k]@) is None,
                },
        decreases texts@.len() - i,
    {
        let reading = Address::parse(texts[i].as_str());
        out.push(reading);
        i = i + 1;
    }
    out
}

/// Entry `i` is the first reading that failed.
pub open spec fn first_failure(readings: Seq<Option<Address>>, i: int) -> bool {
    &&& 0 <= i < readings.len()
    &&& readings[i] is None
    &&& forall|j: int| 0 <= j < i ==> (#[trigger] readings[j]) is Some
}

/// Turns the readings of a list of texts into the list of addresses. If any
/// reading failed, the whole list is refused with the first text that could
/// not be read, and no address is handed out; otherwise every address comes
/// back in the order of the texts.
pub fn collect_addresses(texts: &Vec<String>, readings: &Vec<Option<Address>>) -> (r: Result<
    Vec<Address>,
    LutError,
>)
    requires
        readings@.len() == texts@.len(),
    ensures
        (forall|j: int| 0 <= j < readings@.len() ==> (#[trigger] readings@[j]) is Some) ==> r is Ok
            && r->Ok_0@.len() == readings@.len() && forall|j: int|
            0 <= j < readings@.len() ==> Some(#[trigger] r->Ok_0@[j]) == readings@[j],
        forall|i: int|
            first_failure(readings@, i) ==> (r matches Err(LutError::InvalidAddress(value))
                && value@ == texts@[i]@),
{
    let mut out: Vec<Address> = Vec::new();
    let mut i: usize = 0;
    while i < readings.len()
        invariant
            i <= readings@.len(),
            readings@.len() == texts@.len(),
            out@.len() == i,
            forall|j: int| 0 <= j < i ==> Some(#[trigger] out@[j]) == readings@[j],
            forall|j: int| 0 <= j < i ==> (#[trigger] readings@[j]) is Some,
        decreases readings@.len() - i,
    {
        match readings[i] {
            Some(address) => {
                out.push(address);
            },
            None => {
                let value = texts[i].clone();
                assert(first_failure(readings@, i as int));
                assert forall|k: int| first_failure(readings@, k) implies k == i by {
                    if k < i {
                        assert(readings@[k] is Some);
                    } else if k > i {
                        assert(readings@[i as int] is Some);
                    }
                }
                return Err(LutError::InvalidAddress(value));
            },
        }
        i = i + 1;
    }
    assert forall|k: int| first_failure(readings@, k) implies false by {
        assert(readings@[k] is Some);
    }
    Ok(out)
}

/// Reads a list of base58 texts as addresses: all of them in order, or the
/// first text that is no address and nothing else.
pub fn parse_addresses(texts: &Vec<String>) -> (r: Result<Vec<Address>, LutError>)
    ensures
        resolved(texts_of(texts@), r),
{
    let readings = read_all(texts);
    let r = collect_addresses(texts, &readings);
    proof {
        let t = texts_of(texts@);
        if forall|j: int| 0 <= j < readings@.len() ==> (#[trigger] readings@[j]) is Some {
            assert forall|j: int| 0 <= j < t.len() implies (#[trigger] base58_address(
                t[j],
            )) is Some by {
                assert(readings@[j] is Some);
            }
            assert(address_views(r->Ok_0@) =~= addresses_of(t)) by {
                assert forall|j: int| 0 <= j < t.len() implies address_views(r->Ok_0@)[j]
                    == addresses_of(t)[j] by {
                    assert(Some(r->Ok_0@[j]) == readings@[j]);
                }
            }
        } else {
            let bad = choose|j: int| 0 <= j < readings@.len() && !(#[trigger] readings@[j] is Some);
            let i = least_failure(readings@, bad);
            assert(first_failure(readings@, i));
            assert(first_invalid(t, i)) by {
                assert(readings@[i] is None);
                assert forall|j: int| 0 <= j < i implies (#[trigger] base58_address(
                    t[j],
                )) is Some by {
                    assert(readings@[j] is Some);
                }
            }
        }
    }
    r
}

/// Below any failed reading there is a first one.
proof fn least_failure(readings: Seq<Option<Address>>, bad: int) -> (i: int)
    requires
        0 <= bad < readings.len(),
        readings[bad] is None,
    ensures
        first_failure(readings, i),
        i <= bad,
    decreases bad,
{
    if exists|j: int| 0 <= j < bad && (#[trigger] readings[j]) is None {
        let j = choose|j: int| 0 <= j < bad && (#[trigger] readings[j]) is None;
        least_failure(readings, j)
    } else {
        bad
    }
}

/// What `resolve` owes for the two optional sources: the texts given
/// directly and the bytes of the address file.
pub open spec fn resolve_outcome(
    flag: Option<Seq<Seq<char>>>,
    file: Option<Seq<u8>>,
    r: Result<Vec<Address>, LutError>,
) -> bool {
    if flag is None && file is None {
        r == Err::<Vec<Address>, LutError>(LutError::NoAddressesProvided)
    } else if file is Some && json_string_array(file.unwrap()) is None {
        r == Err::<Vec<Address>, LutError>(LutError::JsonParseError)
    } else {
        resolved(
            merged_texts(
                flag,
                match file {
                    Some(document) => json_string_array(document),
                    None => None,
                },
            ),
            r,
        )
    }
}

/// Gathers the addresses of an `extend`: those given directly, then those
/// of the address file, a JSON array of base58 strings. Fails when neither
/// source is given, when the file is no such array, and when any text of
/// the combined list is no address; then nothing is handed out.
pub fn resolve(flag: Option<Vec<String>>, file: Option<Vec<u8>>) -> (r: Result<
    Vec<Address>,
    LutError,
>)
    ensures
        resolve_outcome(
            match flag {
                Some(list) => Some(texts_of(list@)),
                None => None,
            },
            match file {
                Some(document) => Some(document@),
                None => None,
            },
            r,
        ),
{
    resolve_borrowed(&flag, &file)
}

/// As `resolve`, on sources that the caller keeps.
pub fn resolve_borrowed(flag: &Option<Vec<String>>, file: &Option<Vec<u8>>) -> (r: Result<
    Vec<Address>,
    LutError,
>)
    ensures
        resolve_outcome(
            match flag {
                Some(list) => Some(texts_of(list@)),
                None => None,
            },
            match file {
                Some(document) => Some(document@),
                None => None,
            },
            r,
        ),
{
    if flag.is_none() && file.is_none() {
        return Err(LutError::NoAddressesProvided);
    }
    let from_file: Option<Vec<String>> = match file {
        Some(document) => {
            match strings_from_json(document.as_slice()) {
                Some(list) => Some(list),
                None => {
                    return Err(LutError::JsonParseError);
                },
            }
        },
        None => None,
    };
    match merge_sources(flag, &from_file) {
        Ok(texts) => parse_addresses(&texts),
        Err(e) => Err(e),
    }
}

} // verus!
