//! What the store has reported about the products it sells.
use vstd::prelude::*;

verus! {

/// One product as the store described it: its identifier and its price,
/// formatted for the user's locale.
#[derive(Clone, Debug)]
pub struct Product {
    pub id: String,
    pub display_price: String,
}

impl View for Product {
    type V = (Seq<char>, Seq<char>);

    open spec fn view(&self) -> (Seq<char>, Seq<char>) {
        (self.id@, self.display_price@)
    }
}

/// The products of the store's latest answer, in the order it gave them.
/// A product can be bought exactly when the store has listed it.
pub struct Catalog {
    products: Vec<Product>,
}

/// Whether some entry of `s` has identifier `id`.
pub open spec fn lists(s: Seq<(Seq<char>, Seq<char>)>, id: Seq<char>) -> bool {
    exists|i: int| 0 <= i < s.len() && #[trigger] s[i].0 == id
}

/// `i` is the first entry of `s` with identifier `id`.
pub open spec fn first_listing(s: Seq<(Seq<char>, Seq<char>)>, id: Seq<char>, i: int) -> bool {
    &&& 0 <= i < s.len()
    &&& s[i].0 == id
    &&& forall|j: int| 0 <= j < i ==> #[trigger] s[j].0 != id
}

/// The price in the first entry of `s` with identifier `id`.
pub open spec fn listed_price(s: Seq<(Seq<char>, Seq<char>)>, id: Seq<char>) -> Seq<char> {
    s[choose|i: int| first_listing(s, id, i)].1
}

/// Two first listings of one identifier are the same entry.
proof fn lemma_first_listing_unique(s: Seq<(Seq<char>, Seq<char>)>, id: Seq<char>, i: int, k: int)
    requires
        first_listing(s, id, i),
        first_listing(s, id, k),
    ensures
        i == k,
{
    if i < k {
        assert(s[i].0 != id);
    } else if k < i {
        assert(s[k].0 != id);
    }
}

impl View for Catalog {
    type V = Seq<(Seq<char>, Seq<char>)>;

    closed spec fn view(&self) -> Seq<(Seq<char>, Seq<char>)> {
        self.products@.map_values(|p: Product| p@)
    }
}

impl Catalog {
    /// A catalog before the store has answered: nothing can be bought.
    pub fn new() -> (r: Catalog)
        ensures
            r@ == Seq::<(Seq<char>, Seq<char>)>::empty(),
    {
        let r = Catalog { products: Vec::new() };
        assert(r@ =~= Seq::<(Seq<char>, Seq<char>)>::empty());
        r
    }

    /// Takes the store's latest list of products in place of the previous one.
    pub fn record_products(&mut self, reported: Vec<Product>)
        ensures
            final(self)@ == reported@.map_values(|p: Product| p@),
    {
        self.products = reported;
    }

    /// Number of products listed.
    pub fn len(&self) -> (r: usize)
        ensures
            r == self@.len(),
    {
        self.products.len()
    }

    /// The localized price of product `id`, from its first listing; `None`
    /// when the store has not listed it.
    pub fn price_localized(&self, id: &String) -> (r: Option<String>)
        ensures
            r is None <==> !lists(self@, id@),
            r matches Some(price) ==> price@ == listed_price(self@, id@),
    {
        let mut i: usize = 0;
        while i < self.products.len()
            invariant
                0 <= i <= self.products.len(),
                self@ == self.products@.map_values(|p: Product| p@),
                forall|j: int| 0 <= j < i ==> #[trigger] self@[j].0 != id@,
            decreases self.products.len() - i,
        {
            if self.products[i].id == *id {
                let price = self.products[i].display_price.clone();
                assert(first_listing(self@, id@, i as int));
                assert(self@[i as int].1 == price@);
                proof {
                    let k = choose|k: int| first_listing(self@, id@, k);
                    lemma_first_listing_unique(self@, id@, i as int, k);
                }
                return Some(price);
            }
            i = i + 1;
        }
        None
    }

    /// Whether product `id` can be bought: the store has listed it.
    pub fn can_purchase(&self, id: &String) -> (r: bool)
        ensures
            r == lists(self@, id@),
    {
        self.price_localized(id).is_some()
    }
}

} // verus!
