use crate::tscp::{ceil_div, lemma_ceil_div};
use vstd::prelude::*;

verus! {

/// The chunks laid end to end.
pub open spec fn concat_all(chunks: Seq<Seq<u8>>) -> Seq<u8>
    decreases chunks.len(),
{
    if chunks.len() == 0 {
        Seq::empty()
    } else {
        concat_all(chunks.drop_last()) + chunks.last()
    }
}

pub open spec fn min_int(a: int, b: int) -> int {
    if a <= b { a } else { b }
}

/// Chunk `i` of `data` cut into pieces of `size` bytes: a contiguous range,
/// the last one possibly shorter.
pub open spec fn chunk_at(data: Seq<u8>, size: int, i: int) -> Seq<u8> {
    data.subrange(min_int(i * size, data.len() as int), min_int((i + 1) * size, data.len() as int))
}

/// `data` cut into `ceil(len / size)` chunks, in order.
pub open spec fn split_spec(data: Seq<u8>, size: int) -> Seq<Seq<u8>> {
    Seq::new(ceil_div(data.len() as int, size) as nat, |i: int| chunk_at(data, size, i))
}

pub open spec fn views_of(chunks: Seq<Vec<u8>>) -> Seq<Seq<u8>> {
    chunks.map_values(|c: Vec<u8>| c@)
}

proof fn lemma_chunk_bounds(n: int, size: int, k: int)
    requires
        n >= 0,
        size > 0,
        0 <= k < ceil_div(n, size),
    ensures
        k * size < n,
        (k + 1) * size >= n ==> k == ceil_div(n, size) - 1,
{
    lemma_ceil_div(n, size);
    let q = n / size;
    assert(n == q * size + n % size) by (nonlinear_arith) requires size > 0, q == n / size;
    assert(0 <= n % size < size) by (nonlinear_arith) requires size > 0;
    if n % size == 0 {
        assert(k < q);
        assert(k * size < n) by (nonlinear_arith) requires k < q, n == q * size, size > 0, k >= 0;
        if (k + 1) * size >= n {
            assert(k + 1 >= q) by (nonlinear_arith) requires (k + 1) * size >= q * size, size > 0;
        }
    } else {
        assert(k <= q);
        assert(k * size < n) by (nonlinear_arith) requires k <= q, n == q * size + n % size, n % size > 0, size > 0, k >= 0;
        if (k + 1) * size >= n {
            assert(k + 1 > q) by (nonlinear_arith) requires (k + 1) * size >= q * size + n % size, n % size > 0, size > 0;
        }
    }
}

#[verifier::spinoff_prover]
proof fn lemma_concat_prefix(data: Seq<u8>, size: int, k: int)
    requires
        size > 0,
        0 <= k <= ceil_div(data.len() as int, size),
    ensures
        concat_all(split_spec(data, size).take(k)) == data.subrange(0, min_int(k * size, data.len() as int)),
    decreases k,
{
    let n = data.len() as int;
    let s = split_spec(data, size);
    if k == 0 {
        assert(s.take(0) =~= Seq::<Seq<u8>>::empty());
        assert(data.subrange(0, 0) =~= Seq::<u8>::empty());
    } else {
        lemma_concat_prefix(data, size, k - 1);
        let t = s.take(k);
        assert(t.drop_last() =~= s.take(k - 1));
        assert(t.last() == chunk_at(data, size, k - 1));
        assert(concat_all(t) == concat_all(t.drop_last()) + t.last());
        lemma_chunk_bounds(n, size, k - 1);
        assert((k - 1) * size + size == k * size) by (nonlinear_arith);
        assert((k - 1 + 1) * size == k * size) by (nonlinear_arith);
        assert(min_int((k - 1) * size, n) == (k - 1) * size);
        assert(concat_all(t.drop_last()) == data.subrange(0, (k - 1) * size));
        assert(chunk_at(data, size, k - 1) == data.subrange((k - 1) * size, min_int(k * size, n)));
        assert(data.subrange(0, min_int(k * size, n)) =~= data.subrange(0, (k - 1) * size) + data.subrange(
            (k - 1) * size,
            min_int(k * size, n),
        ));
    }
}

/// Merging the chunks of a split, in order, gives back exactly the bytes
/// that were split; so the chunk lengths add up to the total.
pub proof fn law_merge_split(data: Seq<u8>, size: int)
    requires
        size > 0,
    ensures
        concat_all(split_spec(data, size)) == data,
        concat_all(split_spec(data, size)).len() == data.len(),
{
    let n = data.len() as int;
    lemma_ceil_div(n, size);
    let c = ceil_div(n, size);
    lemma_concat_prefix(data, size, c);
    assert(split_spec(data, size).take(c) =~= split_spec(data, size));
    if c > 0 {
        lemma_chunk_bounds(n, size, c - 1);
        assert((c - 1) * size + size == c * size) by (nonlinear_arith);
        assert(c * size >= n);
    } else {
        assert(n == 0) by {
            if n > 0 {
                assert(ceil_div(n, size) >= 1) by (nonlinear_arith) requires n > 0, size > 0, ceil_div(n, size) == (n + size - 1) / size;
            }
        }
    }
    assert(data.subrange(0, min_int(c * size, n)) =~= data);
}

/// A split for `threads` workers: chunks of `ceil(total / threads)` bytes,
/// every chunk but the last of exactly that size, the last one not empty and
/// not larger, no more chunks than workers, and nothing lost.
pub proof fn law_thread_split(data: Seq<u8>, threads: int)
    requires
        threads > 0,
    ensures
        ({
            let size = ceil_div(data.len() as int, threads);
            let chunks = split_spec(data, if size > 0 { size } else { 1 });
            &&& chunks.len() <= threads
            &&& forall|i: int| 0 <= i < chunks.len() - 1 ==> #[trigger] chunks[i].len() == size
            &&& chunks.len() > 0 ==> 0 < chunks.last().len() <= size
            &&& concat_all(chunks) == data
        }),
{
    let n = data.len() as int;
    lemma_ceil_div(n, threads);
    let size = ceil_div(n, threads);
    let sz = if size > 0 { size } else { 1 };
    law_merge_split(data, sz);
    lemma_ceil_div(n, sz);
    let chunks = split_spec(data, sz);
    let c = ceil_div(n, sz);
    if n == 0 {
        assert(c == 0) by (nonlinear_arith) requires c == (n + sz - 1) / sz, n == 0, sz > 0;
    } else {
        assert(size >= 1) by (nonlinear_arith) requires size == (n + threads - 1) / threads, n > 0, threads > 0;
        assert(size * threads >= n) by (nonlinear_arith) requires size == (n + threads - 1) / threads, threads > 0, n >= 0;
        assert(c <= threads) by (nonlinear_arith) requires c == (n + size - 1) / size, size * threads >= n, size > 0, threads > 0;
        assert forall|i: int| 0 <= i < chunks.len() - 1 implies #[trigger] chunks[i].len() == size by {
            lemma_chunk_bounds(n, sz, i);
            lemma_chunk_bounds(n, sz, i + 1);
            assert((i + 1) * size == i * size + size) by (nonlinear_arith);
            assert((i + 1) * size < n) by (nonlinear_arith) requires (i + 1) * sz < n, sz == size;
        }
        assert(c >= 1) by (nonlinear_arith) requires c == (n + sz - 1) / sz, n > 0, sz > 0;
        lemma_chunk_bounds(n, sz, c - 1);
        assert(c * sz == (c - 1) * sz + sz) by (nonlinear_arith);
    }
}

/// The chunk size that spreads `total` bytes over `threads` workers: the
/// quotient rounded up, so that every byte is covered.
pub fn chunk_size_for(total: u64, threads: u64) -> (r: u64)
    requires
        threads > 0,
    ensures
        r as int == ceil_div(total as int, threads as int),
{
    proof {
        lemma_ceil_div(total as int, threads as int);
    }
    let q = total / threads;
    if total % threads == 0 {
        q
    } else {
        q + 1
    }
}

/// Cuts `data` into chunks of `size` bytes, in order; the last chunk may be
/// shorter.
pub fn split_bytes(data: &Vec<u8>, size: usize) -> (r: Vec<Vec<u8>>)
    requires
        size > 0,
    ensures
        views_of(r@) == split_spec(data@, size as int),
{
    let n = data.len();
    proof {
        lemma_ceil_div(n as int, size as int);
    }
    let count: usize = n / size + if n % size == 0 { 0 } else { 1 };
    let mut chunks: Vec<Vec<u8>> = Vec::new();
    let mut k: usize = 0;
    while k < count
        invariant
            count == ceil_div(n as int, size as int),
            n == data@.len(),
            size > 0,
            k <= count,
            chunks@.len() == k,
            forall|j: int| 0 <= j < k ==> #[trigger] chunks@[j]@ == chunk_at(data@, size as int, j),
        decreases count - k,
    {
        proof {
            lemma_chunk_bounds(n as int, size as int, k as int);
        }
        let start: usize = k * size;
        let end: usize = if n - start > size { start + size } else { n };
        assert(start + size == (k + 1) * size) by (nonlinear_arith) requires start == k * size;
        let mut piece: Vec<u8> = Vec::new();
        let mut j: usize = start;
        while j < end
            invariant
                start <= j <= end <= n,
                n == data@.len(),
                piece@ == data@.subrange(start as int, j as int),
            decreases end - j,
        {
            piece.push(data[j]);
            j = j + 1;
            assert(piece@ =~= data@.subrange(start as int, j as int));
        }
        assert(piece@ == chunk_at(data@, size as int, k as int));
        chunks.push(piece);
        k = k + 1;
    }
    assert(views_of(chunks@) =~= split_spec(data@, size as int));
    chunks
}

/// Lays the chunks end to end, in the order given.
pub fn merge_bytes(chunks: &Vec<Vec<u8>>) -> (r: Vec<u8>)
    ensures
        r@ == concat_all(views_of(chunks@)),
{
    let mut out: Vec<u8> = Vec::new();
    let mut i: usize = 0;
    while i < chunks.len()
        invariant
            i <= chunks@.len(),
            out@ == concat_all(views_of(chunks@.subrange(0, i as int))),
        decreases chunks@.len() - i,
    {
        let ghost before = out@;
        let chunk = &chunks[i];
        let mut j: usize = 0;
        while j < chunk.len()
            invariant
                j <= chunk@.len(),
                out@ == before + chunk@.subrange(0, j as int),
            decreases chunk@.len() - j,
        {
            out.push(chunk[j]);
            j = j + 1;
            assert(out@ =~= before + chunk@.subrange(0, j as int));
        }
        assert(chunk@.subrange(0, chunk@.len() as int) =~= chunk@);
        assert(views_of(chunks@.subrange(0, i + 1)).drop_last() =~= views_of(chunks@.subrange(0, i as int)));
        i = i + 1;
    }
    assert(chunks@.subrange(0, chunks@.len() as int) =~= chunks@);
    out
}

} // verus!

verus! {

/// The last `width` decimal digits of `n`, most significant first (zeros on
/// the left where `n` has fewer digits).
pub open spec fn pad_digits(n: nat, width: nat) -> Seq<char>
    decreases width,
{
    if width == 0 {
        Seq::empty()
    } else {
        pad_digits(n / 10, (width - 1) as nat).push(crate::text::digit_char(n % 10))
    }
}

/// How many decimal digits `n` has (one for zero).
pub open spec fn digit_count(n: nat) -> nat
    decreases n,
{
    if n < 10 {
        1
    } else {
        1 + digit_count(n / 10)
    }
}

pub open spec fn pow10(w: nat) -> nat
    decreases w,
{
    if w == 0 {
        1
    } else {
        10 * pow10((w - 1) as nat)
    }
}

/// The file name of chunk `index` of `count`: a fixed prefix and the index
/// in decimal, zero-padded to the width of the largest index.
pub open spec fn chunk_file_name(index: nat, count: nat) -> Seq<char> {
    "chunk_"@ + pad_digits(index, digit_count((count - 1) as nat))
}

/// `a` comes before `b` in the order of text: at the first place where they
/// differ, `a` holds the smaller character.
pub open spec fn text_less(a: Seq<char>, b: Seq<char>) -> bool {
    a.len() == b.len() && exists|k: int|
        0 <= k < a.len() && a.take(k) == b.take(k) && (a[k] as u32) < (b[k] as u32)
}

proof fn lemma_below_pow10(n: nat)
    ensures
        n < pow10(digit_count(n)),
    decreases n,
{
    if n >= 10 {
        lemma_below_pow10(n / 10);
        let d = digit_count(n / 10);
        let p = pow10(d);
        assert(digit_count(n) == d + 1);
        assert(pow10(d + 1) == 10 * p);
        assert(n < 10 * p) by (nonlinear_arith) requires n / 10 < p;
    } else {
        assert(pow10(0) == 1);
        assert(pow10(1) == 10 * pow10(0));
    }
}

proof fn lemma_pad_len(n: nat, w: nat)
    ensures
        pad_digits(n, w).len() == w,
    decreases w,
{
    if w > 0 {
        lemma_pad_len(n / 10, (w - 1) as nat);
    }
}

proof fn lemma_digit_char_order(a: nat, b: nat)
    requires
        a < b < 10,
    ensures
        (crate::text::digit_char(a) as u32) < (crate::text::digit_char(b) as u32),
{
}

proof fn lemma_pad_order(n: nat, m: nat, w: nat)
    requires
        n < m,
        m < pow10(w),
    ensures
        text_less(pad_digits(n, w), pad_digits(m, w)),
    decreases w,
{
    lemma_pad_len(n, w);
    lemma_pad_len(m, w);
    if w == 0 {
        assert(false);
    } else {
        let w1 = (w - 1) as nat;
        let a = pad_digits(n, w);
        let b = pad_digits(m, w);
        let pa = pad_digits(n / 10, w1);
        let pb = pad_digits(m / 10, w1);
        lemma_pad_len(n / 10, w1);
        lemma_pad_len(m / 10, w1);
        assert(pow10(w) == 10 * pow10(w1));
        assert(m / 10 < pow10(w1)) by (nonlinear_arith) requires m < 10 * pow10(w1);
        if n / 10 < m / 10 {
            lemma_pad_order(n / 10, m / 10, w1);
            let k = choose|k: int| 0 <= k < pa.len() && pa.take(k) == pb.take(k) && (pa[k] as u32) < (pb[k] as u32);
            assert(a.take(k) =~= pa.take(k));
            assert(b.take(k) =~= pb.take(k));
            assert(a[k] == pa[k] && b[k] == pb[k]);
        } else {
            assert(n / 10 == m / 10) by (nonlinear_arith) requires n < m, !(n / 10 < m / 10);
            assert(n % 10 < m % 10) by (nonlinear_arith) requires n < m, n / 10 == m / 10;
            lemma_digit_char_order(n % 10, m % 10);
            let k = w1 as int;
            assert(a.take(k) =~= pa);
            assert(b.take(k) =~= pb);
        }
    }
}

/// Chunk names sort in chunk order, so that joining the chunk files in the
/// order of their names joins the chunks in the order of the split.
pub proof fn law_chunk_names_sorted(i: nat, j: nat, count: nat)
    requires
        i < j < count,
    ensures
        text_less(chunk_file_name(i, count), chunk_file_name(j, count)),
{
    let w = digit_count((count - 1) as nat);
    lemma_below_pow10((count - 1) as nat);
    lemma_pad_order(i, j, w);
    let a = pad_digits(i, w);
    let b = pad_digits(j, w);
    let k = choose|k: int| 0 <= k < a.len() && a.take(k) == b.take(k) && (a[k] as u32) < (b[k] as u32);
    let p = "chunk_"@;
    let k2 = p.len() + k;
    assert((p + a).take(k2) =~= p + a.take(k));
    assert((p + b).take(k2) =~= p + b.take(k));
    assert((p + a)[k2] == a[k]);
    assert((p + b)[k2] == b[k]);
}

fn pad_digits_exec(n: u64, width: u64) -> (r: String)
    ensures
        r@ == pad_digits(n as nat, width as nat),
    decreases width,
{
    if width == 0 {
        String::new()
    } else {
        pad_digits_exec(n / 10, width - 1).concat(crate::text::digit_str((n % 10) as u128))
    }
}

fn digit_count_exec(n: u64) -> (r: u64)
    ensures
        r == digit_count(n as nat),
        r <= n as int + 1,
    decreases n,
{
    if n < 10 {
        1
    } else {
        1 + digit_count_exec(n / 10)
    }
}

/// The name of chunk `index` of `count`.
pub fn chunk_name(index: u64, count: u64) -> (r: String)
    requires
        index < count,
    ensures
        r@ == chunk_file_name(index as nat, count as nat),
{
    let width = digit_count_exec(count - 1);
    "chunk_".to_string().concat(pad_digits_exec(index, width).as_str())
}

/// The final path segment: what follows the last `/`, or all of `s`.
pub open spec fn last_segment(s: Seq<char>) -> Seq<char>
    decreases s.len(),
{
    if s.len() == 0 {
        s
    } else if s.last() == '/' {
        Seq::empty()
    } else {
        last_segment(s.drop_last()).push(s.last())
    }
}

/// White space as `str::trim` knows it: the Unicode `White_Space` property.
pub open spec fn is_white_space(c: char) -> bool {
    ('\t' <= c && c <= '\r') || c == ' ' || c == '\u{85}' || c == '\u{a0}' || c == '\u{1680}'
        || ('\u{2000}' <= c && c <= '\u{200a}') || c == '\u{2028}' || c == '\u{2029}'
        || c == '\u{202f}' || c == '\u{205f}' || c == '\u{3000}'
}

pub open spec fn trim_start(s: Seq<char>) -> Seq<char>
    decreases s.len(),
{
    if s.len() > 0 && is_white_space(s[0]) {
        trim_start(s.drop_first())
    } else {
        s
    }
}

pub open spec fn trim_end(s: Seq<char>) -> Seq<char>
    decreases s.len(),
{
    if s.len() > 0 && is_white_space(s.last()) {
        trim_end(s.drop_last())
    } else {
        s
    }
}

/// The text without leading and trailing white space, as `str::trim` gives it.
pub open spec fn trimmed(s: Seq<char>) -> Seq<char> {
    trim_end(trim_start(s))
}

fn white_space(c: char) -> (r: bool)
    ensures
        r == is_white_space(c),
{
    ('\t' <= c && c <= '\r') || c == ' ' || c == '\u{85}' || c == '\u{a0}' || c == '\u{1680}'
        || ('\u{2000}' <= c && c <= '\u{200a}') || c == '\u{2028}' || c == '\u{2029}'
        || c == '\u{202f}' || c == '\u{205f}' || c == '\u{3000}'
}

/// `s` without leading and trailing white space.
pub fn trim_text(s: &str) -> (r: &str)
    ensures
        r@ == trimmed(s@),
{
    let n = s.unicode_len();
    let mut i: usize = 0;
    assert(s@.subrange(0, n as int) =~= s@);
    while i < n && white_space(s.get_char(i))
        invariant
            n == s@.len(),
            i <= n,
            trim_start(s@) == trim_start(s@.subrange(i as int, n as int)),
        decreases n - i,
    {
        assert(s@.subrange(i as int, n as int).drop_first() =~= s@.subrange(i + 1, n as int));
        i = i + 1;
    }
    assert(trim_start(s@) == s@.subrange(i as int, n as int));
    let mut j: usize = n;
    while j > i && white_space(s.get_char(j - 1))
        invariant
            n == s@.len(),
            i <= j <= n,
            trim_end(s@.subrange(i as int, n as int)) == trim_end(s@.subrange(i as int, j as int)),
        decreases j - i,
    {
        assert(s@.subrange(i as int, j as int).drop_last() =~= s@.subrange(i as int, j - 1));
        j = j - 1;
    }
    s.substring_char(i, j)
}

/// The text after the last `/` of `s`.
pub fn after_last_slash(s: &str) -> (r: &str)
    ensures
        r@ == last_segment(s@),
{
    let n = s.unicode_len();
    let mut start: usize = 0;
    let mut i: usize = 0;
    while i < n
        invariant
            n == s@.len(),
            start <= i <= n,
            s@.subrange(start as int, i as int) == last_segment(s@.subrange(0, i as int)),
        decreases n - i,
    {
        let c = s.get_char(i);
        let ghost pre = s@.subrange(0, i as int);
        assert(s@.subrange(0, i + 1).drop_last() =~= pre);
        if c == '/' {
            start = i + 1;
            i = i + 1;
            assert(s@.subrange(start as int, i as int) =~= Seq::<char>::empty());
        } else {
            i = i + 1;
            assert(s@.subrange(start as int, i as int) =~= s@.subrange(start as int, i - 1).push(c));
        }
    }
    assert(s@.subrange(0, n as int) =~= s@);
    s.substring_char(start, n)
}

/// Where a chunk lands in a temporary directory: the directory, a `/`, and
/// the chunk's file name without surrounding white space.
pub fn path_from_chunk(file: &str, tmpdir: &str) -> (r: String)
    ensures
        r@ == tmpdir@ + "/"@ + trimmed(last_segment(file@)),
{
    let name = trim_text(after_last_slash(file));
    tmpdir.to_string().concat("/").concat(name)
}

} // verus!

verus! {

/// The shell command that joins the chunk files of `dir` into `dest`: the
/// shell lists `chunk_*` in name order, which is chunk order.
pub fn merge_command(dir: &str, dest: &str) -> (r: String)
    ensures
        r@ == "cat "@ + dir@ + "/chunk_* > "@ + dest@,
{
    "cat ".to_string().concat(dir).concat("/chunk_* > ").concat(dest)
}

} // verus!
