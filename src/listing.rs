use vstd::prelude::*;

verus! {

/// The text of one decimal digit.
pub open spec fn digit_text(d: nat) -> Seq<char> {
    if d == 0 {
        "0"@
    } else if d == 1 {
        "1"@
    } else if d == 2 {
        "2"@
    } else if d == 3 {
        "3"@
    } else if d == 4 {
        "4"@
    } else if d == 5 {
        "5"@
    } else if d == 6 {
        "6"@
    } else if d == 7 {
        "7"@
    } else if d == 8 {
        "8"@
    } else {
        "9"@
    }
}

/// The decimal notation of a natural number, without leading zeros.
pub open spec fn decimal(n: nat) -> Seq<char>
    decreases n,
{
    if n < 10 {
        digit_text(n)
    } else {
        decimal(n / 10) + digit_text(n % 10)
    }
}

/// `k` spaces.
pub open spec fn spaces(k: nat) -> Seq<char>
    decreases k,
{
    if k == 0 {
        Seq::empty()
    } else {
        spaces((k - 1) as nat) + " "@
    }
}

/// `s` right-aligned in a field of `width` characters; never cut.
pub open spec fn pad_left(s: Seq<char>, width: nat) -> Seq<char> {
    if s.len() >= width {
        s
    } else {
        spaces((width - s.len()) as nat) + s
    }
}

/// Header of a blob listing.
pub open spec fn blobs_header_spec(count: nat, container: Seq<char>) -> Seq<char> {
    "List of "@ + decimal(count) + " blobs in container '"@ + container + "'"@
}

/// One row of a blob listing: modification time, size in bytes (in eight
/// columns), blob type (in ten columns) and name.
pub open spec fn blob_row_spec(modified: Seq<char>, length: nat, blob_type: Seq<char>, name: Seq<char>) -> Seq<char> {
    " "@ + modified + " "@ + pad_left(decimal(length), 8) + " "@ + pad_left(blob_type, 10) + " "@ + name
}

/// Header of a container listing.
pub open spec fn containers_header_spec(count: nat) -> Seq<char> {
    "List of "@ + decimal(count) + " containers"@
}

/// One row of a container listing: modification time and name.
pub open spec fn container_row_spec(modified: Seq<char>, name: Seq<char>) -> Seq<char> {
    " "@ + modified + " "@ + name
}

fn digit_str(d: u64) -> (r: &'static str)
    requires
        d < 10,
    ensures
        r@ == digit_text(d as nat),
{
    if d == 0 {
        "0"
    } else if d == 1 {
        "1"
    } else if d == 2 {
        "2"
    } else if d == 3 {
        "3"
    } else if d == 4 {
        "4"
    } else if d == 5 {
        "5"
    } else if d == 6 {
        "6"
    } else if d == 7 {
        "7"
    } else if d == 8 {
        "8"
    } else {
        "9"
    }
}

/// The decimal notation of `n`.
pub fn decimal_string(n: u64) -> (r: String)
    ensures
        r@ == decimal(n as nat),
    decreases n,
{
    if n < 10 {
        String::from_str(digit_str(n))
    } else {
        let mut s = decimal_string(n / 10);
        s.append(digit_str(n % 10));
        s
    }
}

/// `s` right-aligned in a field of `width` characters.
pub fn pad_left_string(s: &str, width: usize) -> (r: String)
    ensures
        r@ == pad_left(s@, width as nat),
{
    let len = s.unicode_len();
    let mut r = String::new();
    if len < width {
        let mut i: usize = 0;
        while i < width - len
            invariant
                len < width,
                i <= width - len,
                r@ == spaces(i as nat),
            decreases width - len - i,
        {
            r.append(" ");
            i = i + 1;
        }
    }
    r.append(s);
    proof {
        if len >= width {
            assert(r@ =~= s@);
        }
    }
    r
}

/// Header of a blob listing.
pub fn blobs_header(count: usize, container: &str) -> (r: String)
    ensures
        r@ == blobs_header_spec(count as nat, container@),
{
    let mut r = String::from_str("List of ");
    let n = decimal_string(count as u64);
    r.append(n.as_str());
    r.append(" blobs in container '");
    r.append(container);
    r.append("'");
    r
}

/// One row of a blob listing.
pub fn blob_row(modified: &str, length: u64, blob_type: &str, name: &str) -> (r: String)
    ensures
        r@ == blob_row_spec(modified@, length as nat, blob_type@, name@),
{
    let mut r = String::from_str(" ");
    r.append(modified);
    r.append(" ");
    let n = decimal_string(length);
    let size = pad_left_string(n.as_str(), 8);
    r.append(size.as_str());
    r.append(" ");
    let kind = pad_left_string(blob_type, 10);
    r.append(kind.as_str());
    r.append(" ");
    r.append(name);
    r
}

/// Header of a container listing.
pub fn containers_header(count: usize) -> (r: String)
    ensures
        r@ == containers_header_spec(count as nat),
{
    let mut r = String::from_str("List of ");
    let n = decimal_string(count as u64);
    r.append(n.as_str());
    r.append(" containers");
    r
}

/// One row of a container listing.
pub fn container_row(modified: &str, name: &str) -> (r: String)
    ensures
        r@ == container_row_spec(modified@, name@),
{
    let mut r = String::from_str(" ");
    r.append(modified);
    r.append(" ");
    r.append(name);
    r
}

} // verus!
