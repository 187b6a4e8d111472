use crate::identity::PlayerKey;
use vstd::prelude::*;
use vstd::set_lib::{lemma_int_range, set_int_range};

verus! {

/// Number of customers of a match; they are known by their index, 0 to 22.
pub const CUSTOMER_COUNT: usize = 23;

/// One customer of a match.
#[derive(Clone, Copy, Debug, PartialEq, Eq)]
pub struct CustomerState {
    /// The customer's layer; always the layer of the customer's index.
    pub layer: u8,
    /// Time of the last sale to this customer; 0 while never served.
    pub last_served_ts: i64,
    /// Number of sales to this customer.
    pub total_serves: u32,
    /// Who sold to this customer last.
    pub last_served_by: Option<PlayerKey>,
}

/// The layer of a customer index: 0 to 2 are the inner layer 3, 3 to 10 the
/// middle layer 2, everything from 11 on the outer layer 1.
pub open spec fn spec_layer_of(customer_index: u8) -> u8 {
    if customer_index <= 2 {
        3
    } else if customer_index <= 10 {
        2
    } else {
        1
    }
}

/// The customer indices of one layer.
pub open spec fn spec_layer_members(layer: u8) -> Set<int> {
    Set::new(|i: int| 0 <= i < 23 && spec_layer_of(i as u8) == layer)
}

/// The 23 customers fall into layers 3, 2 and 1, which hold 3, 8 and 12 of
/// them: the indices 0 to 2, 3 to 10 and 11 to 22. No index is without a
/// layer, and none is in two.
pub proof fn lemma_layers_partition_customers()
    ensures
        forall|i: u8| 1 <= #[trigger] spec_layer_of(i) <= 3,
        spec_layer_members(3) =~= set_int_range(0, 3),
        spec_layer_members(2) =~= set_int_range(3, 11),
        spec_layer_members(1) =~= set_int_range(11, 23),
        spec_layer_members(3).len() == 3,
        spec_layer_members(2).len() == 8,
        spec_layer_members(1).len() == 12,
        spec_layer_members(1).union(spec_layer_members(2)).union(spec_layer_members(3))
            =~= set_int_range(0, 23),
        spec_layer_members(1).disjoint(spec_layer_members(2)),
        spec_layer_members(1).disjoint(spec_layer_members(3)),
        spec_layer_members(2).disjoint(spec_layer_members(3)),
{
    lemma_int_range(0, 3);
    lemma_int_range(3, 11);
    lemma_int_range(11, 23);
}

} // verus!
