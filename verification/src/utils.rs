use vstd::prelude::*;
use vstd::string::{StrSliceExecFns, StringExecFns};
use rand::rngs::ThreadRng;
use rand::Rng;

verus! {

/// The characters that a lobby code is made of: capital letters without the
/// letter O, and digits.
pub const CHARSET: &'static str = "ABCDEFGHIJKLMNPQRSTUVWXYZ0123456789";

/// rand's `ThreadRng`: the random number generator of the running thread.
#[verifier::external_type_specification]
#[verifier::external_body]
pub struct ExThreadRng(ThreadRng);

/// rand's `thread_rng`: a handle to the running thread's generator, which
/// the operating system seeds.
pub assume_specification[ rand::thread_rng ]() -> (rng: ThreadRng);

/// rand's `Rng::gen_range` on the range from zero up to, and without,
/// `bound`: some number of that range. It panics on an empty range.
#[verifier::external_body]
fn pick(rng: &mut ThreadRng, bound: usize) -> (index: usize)
    requires
        bound > 0,
    ensures
        index < bound,
{
    rng.gen_range(0..bound)
}

/// Whether `id` is made of characters of `CHARSET` alone.
pub open spec fn is_code(id: Seq<char>) -> bool {
    forall|i: int| 0 <= i < id.len() ==> CHARSET@.contains(#[trigger] id[i])
}

/// A random string of `len` characters, each drawn from `CHARSET`.
pub fn id_generator(len: usize) -> (id: String)
    ensures
        id@.len() == len,
        is_code(id@),
{
    proof {
        reveal_strlit("ABCDEFGHIJKLMNPQRSTUVWXYZ0123456789");
    }
    let mut rng = rand::thread_rng();
    let mut id = String::new();
    let mut i: usize = 0;
    while i < len
        invariant
            i <= len,
            id@.len() == i,
            is_code(id@),
            CHARSET@.len() == 35,
        decreases len - i,
    {
        let at = pick(&mut rng, 35);
        let one = CHARSET.substring_char(at, at + 1);
        assert(one@ =~= seq![CHARSET@[at as int]]);
        assert(CHARSET@.contains(CHARSET@[at as int]));
        let ghost before = id@;
        id.append(one);
        assert(id@ =~= before.push(CHARSET@[at as int]));
        i += 1;
    }
    id
}

} // verus!
