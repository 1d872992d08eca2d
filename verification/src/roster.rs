use vstd::prelude::*;

use crate::text::{trim, trim_spec};
use crate::tracker::Product;

verus! {

/// `s` has a comma at `i` and nowhere else.
pub open spec fn single_comma_at(s: Seq<char>, i: int) -> bool {
    &&& 0 <= i < s.len()
    &&& s[i] == ','
    &&& forall|j: int| 0 <= j < s.len() && j != i ==> s[j] != ','
}

/// The two fields of a product-list line. A line with exactly one comma
/// splits there into a URL and a display name, both trimmed; a line with no
/// comma or more than one is malformed.
pub open spec fn parse_line_spec(s: Seq<char>) -> Option<(Seq<char>, Seq<char>)> {
    if exists|i: int| single_comma_at(s, i) {
        let i = choose|i: int| single_comma_at(s, i);
        Some((trim_spec(s.subrange(0, i)), trim_spec(s.subrange(i + 1, s.len() as int))))
    } else {
        None
    }
}

/// Parse one line of the product list. A well-formed line yields a product
/// that starts out as not in stock; a malformed line yields nothing, so the
/// caller can skip it and keep loading.
pub fn parse_product_line(line: &str) -> (r: Option<Product>)
    ensures
        r matches Some(p) ==> parse_line_spec(line@) == Some((p.url@, p.name@))
            && !p.last_status,
        r is None ==> parse_line_spec(line@) is None,
{
    let n = line.unicode_len();
    let mut i: usize = 0;
    let mut count: usize = 0;
    let mut comma: usize = 0;
    let mut second: usize = 0;
    while i < n
        invariant
            n == line@.len(),
            i <= n,
            count <= i,
            count == 0 ==> forall|j: int| 0 <= j < i ==> line@[j] != ',',
            count >= 1 ==> comma < i && line@[comma as int] == ',' && (forall|j: int|
                0 <= j < comma ==> line@[j] != ','),
            count == 1 ==> forall|j: int| comma < j < i ==> line@[j] != ',',
            count >= 2 ==> second < i && comma < second && line@[second as int] == ',',
        decreases n - i,
    {
        if line.get_char(i) == ',' {
            if count == 0 {
                comma = i;
            } else if count == 1 {
                second = i;
            }
            count += 1;
        }
        i += 1;
    }
    if count == 1 {
        assert(single_comma_at(line@, comma as int));
        proof {
            let ci = choose|k: int| single_comma_at(line@, k);
            assert(ci == comma as int);
        }
        let url = trim(line.substring_char(0, comma)).to_owned();
        let name = trim(line.substring_char(comma + 1, n)).to_owned();
        Some(Product { url, name, last_status: false })
    } else {
        proof {
            assert forall|k: int| !single_comma_at(line@, k) by {
                if count == 0 {
                } else {
                    if k == comma as int {
                        assert(line@[second as int] == ',');
                    } else {
                        assert(line@[comma as int] == ',');
                    }
                }
            }
        }
        None
    }
}

/// The fields of the products a list of lines yields, in order: each
/// well-formed line contributes one product, each malformed line is
/// skipped, and no malformed line disturbs the lines after it.
pub open spec fn loaded_products(lines: Seq<Seq<char>>) -> Seq<(Seq<char>, Seq<char>)>
    decreases lines.len(),
{
    if lines.len() == 0 {
        Seq::empty()
    } else {
        match parse_line_spec(lines.last()) {
            Some(p) => loaded_products(lines.drop_last()).push(p),
            None => loaded_products(lines.drop_last()),
        }
    }
}

/// Build the tracked product set from the lines of the product list, all
/// products starting as not in stock. Malformed lines are skipped without
/// aborting the load of the lines that follow.
pub fn load_products(lines: &Vec<String>) -> (r: Vec<Product>)
    ensures
        r@.map_values(|p: Product| (p.url@, p.name@)) == loaded_products(lines.deep_view()),
        forall|k: int| 0 <= k < r@.len() ==> !(#[trigger] r@[k]).last_status,
{
    let mut r: Vec<Product> = Vec::new();
    let mut i: usize = 0;
    while i < lines.len()
        invariant
            i <= lines@.len(),
            r@.map_values(|p: Product| (p.url@, p.name@)) == loaded_products(
                lines.deep_view().take(i as int),
            ),
            forall|k: int| 0 <= k < r@.len() ==> !(#[trigger] r@[k]).last_status,
        decreases lines@.len() - i,
    {
        let ghost prev = r@;
        let parsed = parse_product_line(lines[i].as_str());
        match parsed {
            Some(p) => {
                r.push(p);
            },
            None => {},
        }
        proof {
            let dv = lines.deep_view();
            assert(dv.take(i + 1).drop_last() =~= dv.take(i as int));
            assert(dv.take(i + 1).last() == lines@[i as int]@);
            if parsed is Some {
                assert(r@.map_values(|p: Product| (p.url@, p.name@)) =~= prev.map_values(
                    |p: Product| (p.url@, p.name@),
                ).push((parsed->Some_0.url@, parsed->Some_0.name@)));
            }
        }
        i += 1;
    }
    proof {
        assert(lines.deep_view().take(lines@.len() as int) =~= lines.deep_view());
    }
    r
}

} // verus!
