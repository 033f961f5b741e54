use vstd::prelude::*;

verus! {

/// The user agent sent on behalf of `product`: the product's name.
pub open spec fn user_agent_for(product: Seq<char>) -> Seq<char> {
    product
}

/// The user agent that requests made for `product` carry.
pub fn get_user_agent(product: &str) -> (agent: String)
    ensures
        agent@ == user_agent_for(product@),
{
    product.to_owned()
}

} // verus!
