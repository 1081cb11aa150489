//! The computing part of the extraction pipeline: the data URL under which
//! a page image is sent for transcription, and the assembly of the per-page
//! transcriptions into one text.
use vstd::prelude::*;
use vstd::seq_lib::{to_multiset_build, to_multiset_insert};
use crate::error::AppError;
use crate::ledger::ProcessedDocument;
use crate::text::{chars_of, decimal, decimal_string};

verus! {

/// The digit of a 6-bit value in the standard base64 alphabet (RFC 4648).
pub open spec fn base64_digit(v: int) -> char {
    "ABCDEFGHIJKLMNOPQRSTUVWXYZabcdefghijklmnopqrstuvwxyz0123456789+/"@[v]
}

/// The standard, padded base64 encoding of a byte sequence: each group of
/// three bytes becomes four digits; a final group of one or two bytes
/// becomes two or three digits followed by `=` padding.
pub open spec fn base64_of(b: Seq<u8>) -> Seq<char>
    decreases b.len(),
{
    if b.len() == 0 {
        Seq::empty()
    } else if b.len() == 1 {
        let b0 = b[0] as int;
        seq![base64_digit(b0 / 4), base64_digit((b0 % 4) * 16), '=', '=']
    } else if b.len() == 2 {
        let (b0, b1) = (b[0] as int, b[1] as int);
        seq![base64_digit(b0 / 4), base64_digit((b0 % 4) * 16 + b1 / 16), base64_digit((b1 % 16) * 4), '=']
    } else {
        let (b0, b1, b2) = (b[0] as int, b[1] as int, b[2] as int);
        seq![
            base64_digit(b0 / 4),
            base64_digit((b0 % 4) * 16 + b1 / 16),
            base64_digit((b1 % 16) * 4 + b2 / 64),
            base64_digit(b2 % 64),
        ] + base64_of(b.skip(3))
    }
}

/// Relies on `base64::Engine::encode` with the `STANDARD` engine: the padded
/// encoding in the standard alphabet, four characters per started group of
/// three bytes. It panics only when that length overflows `usize`.
#[verifier::external_body]
fn encode_base64(data: &[u8]) -> (r: String)
    requires
        data@.len() <= usize::MAX / 2,
    ensures
        r@ == base64_of(data@),
        r@.len() == 4 * ((data@.len() + 2) / 3),
{
    base64::Engine::encode(&base64::engine::general_purpose::STANDARD, data)
}

/// The data URL of an image: `data:<mime>;base64,<encoding>`.
pub open spec fn data_url(mime: Seq<char>, image: Seq<u8>) -> Seq<char> {
    "data:"@ + mime + ";base64,"@ + base64_of(image)
}

/// Builds the data URL under which a page image is handed to the vision
/// completion service.
pub fn image_data_url(mime: &str, image: &[u8]) -> (r: String)
    requires
        image@.len() <= usize::MAX / 2,
    ensures
        r@ == data_url(mime@, image@),
{
    let encoded = encode_base64(image);
    let mut url = String::from_str("data:");
    url.append(mime);
    url.append(";base64,");
    url.append(encoded.as_str());
    url
}

/// The section of page `i` (numbered from 1 in the header).
pub open spec fn page_section(i: nat, text: Seq<char>) -> Seq<char> {
    "--- Page "@ + decimal(i + 1) + " ---\n"@ + text
}

/// The sections of the first `n` pages, separated by blank lines.
pub open spec fn pages_text(pages: Seq<Seq<char>>, n: nat) -> Seq<char>
    decreases n,
{
    if n == 0 {
        Seq::empty()
    } else if n == 1 {
        page_section(0, pages[0])
    } else {
        pages_text(pages, (n - 1) as nat) + "\n\n"@ + page_section((n - 1) as nat, pages[n - 1])
    }
}

/// The views of a list of strings.
pub open spec fn views(v: Seq<String>) -> Seq<Seq<char>> {
    v.map_values(|s: String| s@)
}

/// Joins the per-page transcriptions, in page order, into one document text
/// with a `--- Page N ---` header before each page. Fails when there are no
/// pages.
pub fn assemble_pages(pages: &Vec<String>) -> (r: Result<ProcessedDocument, AppError>)
    ensures
        pages@.len() == 0 ==> r == Err::<ProcessedDocument, AppError>(AppError::ConversionFailure),
        pages@.len() > 0 ==> r is Ok && r->Ok_0.extracted_text@ == pages_text(
            views(pages@),
            pages@.len(),
        ) && r->Ok_0.page_count == pages@.len(),
{
    let n = pages.len();
    if n == 0 {
        return Err(AppError::ConversionFailure);
    }
    let mut text = String::new();
    let mut i: usize = 0;
    while i < n
        invariant
            n == pages@.len(),
            i <= n,
            text@ == pages_text(views(pages@), i as nat),
        decreases n - i,
    {
        if i > 0 {
            text.append("\n\n");
        }
        text.append("--- Page ");
        let k: usize = i + 1;
        let num = decimal_string(k as u64);
        text.append(num.as_str());
        text.append(" ---\n");
        text.append(pages[i].as_str());
        assert(views(pages@)[i as int] == pages@[i as int]@);
        if i == 0 {
            assert(text@ =~= pages_text(views(pages@), 1));
        } else {
            assert(text@ =~= pages_text(views(pages@), (i + 1) as nat));
        }
        i = i + 1;
    }
    Ok(ProcessedDocument { extracted_text: text, page_count: n as u64 })
}

/// Lexicographic order on names: by code point, which is also the byte
/// order of their UTF-8 encodings.
pub open spec fn lex_le(a: Seq<char>, b: Seq<char>) -> bool
    decreases a.len(),
{
    if a.len() == 0 {
        true
    } else if b.len() == 0 {
        false
    } else if a[0] != b[0] {
        (a[0] as u32) < (b[0] as u32)
    } else {
        lex_le(a.drop_first(), b.drop_first())
    }
}

proof fn lemma_char_code_injective(x: char, y: char)
    requires
        x != y,
    ensures
        x as u32 != y as u32,
{
}

proof fn lemma_lex_total(a: Seq<char>, b: Seq<char>)
    ensures
        lex_le(a, b) || lex_le(b, a),
    decreases a.len(),
{
    if a.len() > 0 && b.len() > 0 {
        if a[0] == b[0] {
            lemma_lex_total(a.drop_first(), b.drop_first());
        } else {
            lemma_char_code_injective(a[0], b[0]);
        }
    }
}

proof fn lemma_lex_trans(a: Seq<char>, b: Seq<char>, c: Seq<char>)
    requires
        lex_le(a, b),
        lex_le(b, c),
    ensures
        lex_le(a, c),
    decreases a.len(),
{
    if a.len() > 0 && b.len() > 0 && c.len() > 0 && a[0] == b[0] && b[0] == c[0] {
        lemma_lex_trans(a.drop_first(), b.drop_first(), c.drop_first());
    }
}

/// Compares two names in lexicographic order.
fn name_le(a: &str, b: &str) -> (r: bool)
    ensures
        r == lex_le(a@, b@),
{
    let x = chars_of(a);
    let y = chars_of(b);
    let mut i: usize = 0;
    assert(a@.skip(0) =~= a@);
    assert(b@.skip(0) =~= b@);
    while i < x.len() && i < y.len() && x[i] == y[i]
        invariant
            x@ == a@,
            y@ == b@,
            i <= x@.len(),
            i <= y@.len(),
            lex_le(a@, b@) == lex_le(a@.skip(i as int), b@.skip(i as int)),
        decreases x@.len() - i,
    {
        proof {
            assert(a@.skip(i as int).drop_first() =~= a@.skip(i + 1));
            assert(b@.skip(i as int).drop_first() =~= b@.skip(i + 1));
        }
        i = i + 1;
    }
    if i == x.len() {
        true
    } else if i == y.len() {
        false
    } else {
        (x[i] as u32) < (y[i] as u32)
    }
}

/// Whether a file name is a page image: a non-empty stem with the `png`
/// extension.
pub open spec fn is_page_image(name: Seq<char>) -> bool {
    name.len() > 4 && name.subrange(name.len() - 4, name.len() as int) == ".png"@
}

fn has_png_extension(name: &str) -> (r: bool)
    ensures
        r == is_page_image(name@),
{
    proof {
        reveal_strlit(".png");
    }
    let n = name.unicode_len();
    if n <= 4 {
        return false;
    }
    let r = name.get_char(n - 4) == '.' && name.get_char(n - 3) == 'p' && name.get_char(n - 2) == 'n'
        && name.get_char(n - 1) == 'g';
    proof {
        let t = name@.subrange(n - 4, n as int);
        if r {
            assert(t =~= ".png"@);
        } else if t == ".png"@ {
            assert(t[0] == '.' && t[1] == 'p' && t[2] == 'n' && t[3] == 'g');
        }
    }
    r
}

/// Names in ascending lexicographic order.
pub open spec fn names_sorted(s: Seq<Seq<char>>) -> bool {
    forall|i: int, j: int| 0 <= i < j < s.len() ==> lex_le(#[trigger] s[i], #[trigger] s[j])
}

/// The page images among the files the rasterizer wrote, in page order,
/// which is the lexicographic order of their names.
pub fn select_page_images(names: Vec<String>) -> (r: Vec<String>)
    ensures
        names_sorted(views(r@)),
        views(r@).to_multiset() == views(names@).filter(|n: Seq<char>| is_page_image(n)).to_multiset(),
{
    let ghost pred = |n: Seq<char>| is_page_image(n);
    let mut out: Vec<String> = Vec::new();
    let mut names = names;
    let ghost all = views(names@);
    let n = names.len();
    let mut i: usize = 0;
    proof {
        assert(all.take(0) =~= Seq::<Seq<char>>::empty());
        assert(views(out@) =~= Seq::<Seq<char>>::empty());
        assert(Seq::<Seq<char>>::empty().filter(pred) =~= Seq::<Seq<char>>::empty());
    }
    while i < n
        invariant
            pred == (|n: Seq<char>| is_page_image(n)),
            n == names@.len(),
            all == views(names@),
            i <= n,
            names_sorted(views(out@)),
            views(out@).to_multiset() == all.take(i as int).filter(pred).to_multiset(),
        decreases n - i,
    {
        proof {
            assert(all.take(i + 1) =~= all.take(i as int).push(all[i as int]));
            all.take(i as int).lemma_filter_push(all[i as int], pred);
        }
        let is_image = has_png_extension(names[i].as_str());
        proof {
            assert(all[i as int] == names@[i as int]@);
            assert(is_image == pred(all[i as int]));
        }
        if is_image {
            let name = names[i].clone();
            let m = out.len();
            let mut k: usize = 0;
            while k < m && name_le(out[k].as_str(), name.as_str())
                invariant
                    m == out@.len(),
                    k <= m,
                    forall|j: int| 0 <= j < k ==> lex_le(#[trigger] out@[j]@, name@),
                decreases m - k,
            {
                k = k + 1;
            }
            let ghost before = views(out@);
            out.insert(k, name);
            proof {
                assert(views(out@) =~= before.insert(k as int, name@));
                to_multiset_insert(before, k as int, name@);
                let f = all.take(i as int).filter(pred);
                to_multiset_build(f, all[i as int]);
                assert(all.take(i + 1).filter(pred) == f.push(all[i as int]));
                assert(views(out@).to_multiset() == all.take(i + 1).filter(pred).to_multiset());
                if k < m {
                    lemma_lex_total(before[k as int], name@);
                }
                assert forall|a: int, b: int| 0 <= a < b < views(out@).len() implies lex_le(
                    #[trigger] views(out@)[a],
                    #[trigger] views(out@)[b],
                ) by {
                    let s = views(out@);
                    if b < k {
                        assert(s[a] == before[a] && s[b] == before[b]);
                    } else if b == k {
                        assert(s[a] == before[a]);
                        assert(lex_le(out@[a]@, name@));
                    } else if a == k {
                        assert(s[b] == before[b - 1]);
                        if b - 1 > k {
                            assert(lex_le(before[k as int], before[b - 1]));
                            lemma_lex_trans(name@, before[k as int], before[b - 1]);
                        }
                    } else if a < k {
                        assert(s[a] == before[a] && s[b] == before[b - 1]);
                    } else {
                        assert(s[a] == before[a - 1] && s[b] == before[b - 1]);
                    }
                }
            }
        } else {
            proof {
                assert(all.take(i + 1).filter(pred) == all.take(i as int).filter(pred));
            }
        }
        i = i + 1;
    }
    proof {
        assert(all.take(n as int) =~= all);
    }
    out
}

} // verus!
