//! Proof that the generation table classifies each of its own patterns as the generation
//! it lists the pattern under: no pattern contains a pattern of a newer generation.

use crate::config::{
    generation_of_upper, generation_patterns, matches_any, names_nvidia, GpuGeneration,
};
use crate::text::{has_infix, occurs_at};
use vstd::prelude::*;

verus! {

/// `n` does not occur in `h` when one of its characters is absent from `h`.
pub proof fn lemma_absent_char(h: Seq<char>, n: Seq<char>, k: int)
    requires
        0 <= k < n.len(),
        !h.contains(n[k]),
    ensures
        !has_infix(h, n),
{
    assert forall|i: int| !occurs_at(h, n, i) by {
        if occurs_at(h, n, i) {
            assert(h.subrange(i, i + n.len())[k] == n[k]);
            assert(h[i + k] == n[k]);
        }
    }
}

/// `n` does not occur in `h` when no alignment matches both its `a`-th and `b`-th
/// characters.
proof fn lemma_misaligned(h: Seq<char>, n: Seq<char>, a: int, b: int)
    requires
        0 <= a < n.len(),
        0 <= b < n.len(),
        forall|i: int|
            0 <= i && i + n.len() <= h.len() ==> #[trigger] h[i + a] != n[a] || h[i + b] != n[b],
    ensures
        !has_infix(h, n),
{
    assert forall|i: int| !occurs_at(h, n, i) by {
        if occurs_at(h, n, i) {
            assert(h.subrange(i, i + n.len())[a] == n[a]);
            assert(h.subrange(i, i + n.len())[b] == n[b]);
            assert(h[i + a] == n[a] && h[i + b] == n[b]);
        }
    }
}

/// `h` matches no pattern of `ps` when it contains none of them.
proof fn lemma_none_of(h: Seq<char>, ps: Seq<Seq<char>>)
    requires
        forall|i: int| 0 <= i < ps.len() ==> !has_infix(h, #[trigger] ps[i]),
    ensures
        !matches_any(h, ps),
{
}

/// A pattern occurs in itself.
pub proof fn lemma_self_infix(p: Seq<char>)
    ensures
        has_infix(p, p),
{
    assert(p.subrange(0, p.len() as int) =~= p);
    assert(occurs_at(p, p, 0));
}

/// The patterns of Blackwell are classified as Blackwell.
proof fn lemma_patterns_of_blackwell()
    ensures
        forall|i: int|
            0 <= i < generation_patterns(GpuGeneration::Blackwell).len() ==> generation_of_upper(
                #[trigger] generation_patterns(GpuGeneration::Blackwell)[i],
            ) == GpuGeneration::Blackwell,
{
    assert forall|i: int|
        0 <= i < generation_patterns(GpuGeneration::Blackwell).len() implies generation_of_upper(
            #[trigger] generation_patterns(GpuGeneration::Blackwell)[i],
        ) == GpuGeneration::Blackwell by {
        lemma_self_infix(generation_patterns(GpuGeneration::Blackwell)[i]);
    }
}

/// "RTX 40" contains no pattern of a newer generation.
proof fn lemma_ada_lovelace_0_avoids_newer()
    ensures
        !matches_any("RTX 40"@, generation_patterns(GpuGeneration::Blackwell)),
{
    reveal_strlit("RTX 40");
    reveal_strlit("RTX 50");
    reveal_strlit("RTX 5060");
    reveal_strlit("RTX 5070");
    reveal_strlit("RTX 5080");
    reveal_strlit("RTX 5090");
    assert("RTX 40"@ =~= seq!['R', 'T', 'X', ' ', '4', '0']);
    lemma_absent_char("RTX 40"@, "RTX 50"@, 4);
    lemma_absent_char("RTX 40"@, "RTX 5060"@, 4);
    lemma_absent_char("RTX 40"@, "RTX 5070"@, 4);
    lemma_absent_char("RTX 40"@, "RTX 5080"@, 4);
    lemma_absent_char("RTX 40"@, "RTX 5090"@, 4);
    lemma_none_of("RTX 40"@, generation_patterns(GpuGeneration::Blackwell));
}

/// "RTX 4060" contains no pattern of a newer generation.
proof fn lemma_ada_lovelace_1_avoids_newer()
    ensures
        !matches_any("RTX 4060"@, generation_patterns(GpuGeneration::Blackwell)),
{
    reveal_strlit("RTX 4060");
    reveal_strlit("RTX 50");
    reveal_strlit("RTX 5060");
    reveal_strlit("RTX 5070");
    reveal_strlit("RTX 5080");
    reveal_strlit("RTX 5090");
    assert("RTX 4060"@ =~= seq!['R', 'T', 'X', ' ', '4', '0', '6', '0']);
    lemma_absent_char("RTX 4060"@, "RTX 50"@, 4);
    lemma_absent_char("RTX 4060"@, "RTX 5060"@, 4);
    lemma_absent_char("RTX 4060"@, "RTX 5070"@, 4);
    lemma_absent_char("RTX 4060"@, "RTX 5080"@, 4);
    lemma_absent_char("RTX 4060"@, "RTX 5090"@, 4);
    lemma_none_of("RTX 4060"@, generation_patterns(GpuGeneration::Blackwell));
}

/// "RTX 4070" contains no pattern of a newer generation.
proof fn lemma_ada_lovelace_2_avoids_newer()
    ensures
        !matches_any("RTX 4070"@, generation_patterns(GpuGeneration::Blackwell)),
{
    reveal_strlit("RTX 4070");
    reveal_strlit("RTX 50");
    reveal_strlit("RTX 5060");
    reveal_strlit("RTX 5070");
    reveal_strlit("RTX 5080");
    reveal_strlit("RTX 5090");
    assert("RTX 4070"@ =~= seq!['R', 'T', 'X', ' ', '4', '0', '7', '0']);
    lemma_absent_char("RTX 4070"@, "RTX 50"@, 4);
    lemma_absent_char("RTX 4070"@, "RTX 5060"@, 4);
    lemma_absent_char("RTX 4070"@, "RTX 5070"@, 4);
    lemma_absent_char("RTX 4070"@, "RTX 5080"@, 4);
    lemma_absent_char("RTX 4070"@, "RTX 5090"@, 4);
    lemma_none_of("RTX 4070"@, generation_patterns(GpuGeneration::Blackwell));
}

/// "RTX 4080" contains no pattern of a newer generation.
proof fn lemma_ada_lovelace_3_avoids_newer()
    ensures
        !matches_any("RTX 4080"@, generation_patterns(GpuGeneration::Blackwell)),
{
    reveal_strlit("RTX 4080");
    reveal_strlit("RTX 50");
    reveal_strlit("RTX 5060");
    reveal_strlit("RTX 5070");
    reveal_strlit("RTX 5080");
    reveal_strlit("RTX 5090");
    assert("RTX 4080"@ =~= seq!['R', 'T', 'X', ' ', '4', '0', '8', '0']);
    lemma_absent_char("RTX 4080"@, "RTX 50"@, 4);
    lemma_absent_char("RTX 4080"@, "RTX 5060"@, 4);
    lemma_absent_char("RTX 4080"@, "RTX 5070"@, 4);
    lemma_absent_char("RTX 4080"@, "RTX 5080"@, 4);
    lemma_absent_char("RTX 4080"@, "RTX 5090"@, 4);
    lemma_none_of("RTX 4080"@, generation_patterns(GpuGeneration::Blackwell));
}

/// "RTX 4090" contains no pattern of a newer generation.
proof fn lemma_ada_lovelace_4_avoids_newer()
    ensures
        !matches_any("RTX 4090"@, generation_patterns(GpuGeneration::Blackwell)),
{
    reveal_strlit("RTX 4090");
    reveal_strlit("RTX 50");
    reveal_strlit("RTX 5060");
    reveal_strlit("RTX 5070");
    reveal_strlit("RTX 5080");
    reveal_strlit("RTX 5090");
    assert("RTX 4090"@ =~= seq!['R', 'T', 'X', ' ', '4', '0', '9', '0']);
    lemma_absent_char("RTX 4090"@, "RTX 50"@, 4);
    lemma_absent_char("RTX 4090"@, "RTX 5060"@, 4);
    lemma_absent_char("RTX 4090"@, "RTX 5070"@, 4);
    lemma_absent_char("RTX 4090"@, "RTX 5080"@, 4);
    lemma_absent_char("RTX 4090"@, "RTX 5090"@, 4);
    lemma_none_of("RTX 4090"@, generation_patterns(GpuGeneration::Blackwell));
}

/// "RTX ADA" contains no pattern of a newer generation.
proof fn lemma_ada_lovelace_5_avoids_newer()
    ensures
        !matches_any("RTX ADA"@, generation_patterns(GpuGeneration::Blackwell)),
{
    reveal_strlit("RTX ADA");
    reveal_strlit("RTX 50");
    reveal_strlit("RTX 5060");
    reveal_strlit("RTX 5070");
    reveal_strlit("RTX 5080");
    reveal_strlit("RTX 5090");
    assert("RTX ADA"@ =~= seq!['R', 'T', 'X', ' ', 'A', 'D', 'A']);
    lemma_absent_char("RTX ADA"@, "RTX 50"@, 4);
    lemma_absent_char("RTX ADA"@, "RTX 5060"@, 4);
    lemma_absent_char("RTX ADA"@, "RTX 5070"@, 4);
    lemma_absent_char("RTX ADA"@, "RTX 5080"@, 4);
    lemma_absent_char("RTX ADA"@, "RTX 5090"@, 4);
    lemma_none_of("RTX ADA"@, generation_patterns(GpuGeneration::Blackwell));
}

/// "L40" contains no pattern of a newer generation.
proof fn lemma_ada_lovelace_6_avoids_newer()
    ensures
        !matches_any("L40"@, generation_patterns(GpuGeneration::Blackwell)),
{
    reveal_strlit("L40");
    reveal_strlit("RTX 50");
    reveal_strlit("RTX 5060");
    reveal_strlit("RTX 5070");
    reveal_strlit("RTX 5080");
    reveal_strlit("RTX 5090");
    assert("L40"@ =~= seq!['L', '4', '0']);
    lemma_absent_char("L40"@, "RTX 50"@, 0);
    lemma_absent_char("L40"@, "RTX 5060"@, 0);
    lemma_absent_char("L40"@, "RTX 5070"@, 0);
    lemma_absent_char("L40"@, "RTX 5080"@, 0);
    lemma_absent_char("L40"@, "RTX 5090"@, 0);
    lemma_none_of("L40"@, generation_patterns(GpuGeneration::Blackwell));
}

/// "L4" contains no pattern of a newer generation.
proof fn lemma_ada_lovelace_7_avoids_newer()
    ensures
        !matches_any("L4"@, generation_patterns(GpuGeneration::Blackwell)),
{
    reveal_strlit("L4");
    reveal_strlit("RTX 50");
    reveal_strlit("RTX 5060");
    reveal_strlit("RTX 5070");
    reveal_strlit("RTX 5080");
    reveal_strlit("RTX 5090");
    assert("L4"@ =~= seq!['L', '4']);
    lemma_absent_char("L4"@, "RTX 50"@, 0);
    lemma_absent_char("L4"@, "RTX 5060"@, 0);
    lemma_absent_char("L4"@, "RTX 5070"@, 0);
    lemma_absent_char("L4"@, "RTX 5080"@, 0);
    lemma_absent_char("L4"@, "RTX 5090"@, 0);
    lemma_none_of("L4"@, generation_patterns(GpuGeneration::Blackwell));
}

/// The patterns of AdaLovelace are classified as AdaLovelace.
proof fn lemma_patterns_of_ada_lovelace()
    ensures
        forall|i: int|
            0 <= i < generation_patterns(GpuGeneration::AdaLovelace).len() ==> generation_of_upper(
                #[trigger] generation_patterns(GpuGeneration::AdaLovelace)[i],
            ) == GpuGeneration::AdaLovelace,
{
    lemma_ada_lovelace_0_avoids_newer();
    lemma_ada_lovelace_1_avoids_newer();
    lemma_ada_lovelace_2_avoids_newer();
    lemma_ada_lovelace_3_avoids_newer();
    lemma_ada_lovelace_4_avoids_newer();
    lemma_ada_lovelace_5_avoids_newer();
    lemma_ada_lovelace_6_avoids_newer();
    lemma_ada_lovelace_7_avoids_newer();
    assert forall|i: int|
        0 <= i < generation_patterns(GpuGeneration::AdaLovelace).len() implies generation_of_upper(
            #[trigger] generation_patterns(GpuGeneration::AdaLovelace)[i],
        ) == GpuGeneration::AdaLovelace by {
        lemma_self_infix(generation_patterns(GpuGeneration::AdaLovelace)[i]);
    }
}

/// "RTX 30" contains no pattern of a newer generation.
proof fn lemma_ampere_0_avoids_newer()
    ensures
        !matches_any("RTX 30"@, generation_patterns(GpuGeneration::Blackwell)),
        !matches_any("RTX 30"@, generation_patterns(GpuGeneration::AdaLovelace)),
{
    reveal_strlit("RTX 30");
    reveal_strlit("RTX 50");
    reveal_strlit("RTX 5060");
    reveal_strlit("RTX 5070");
    reveal_strlit("RTX 5080");
    reveal_strlit("RTX 5090");
    reveal_strlit("RTX 40");
    reveal_strlit("RTX 4060");
    reveal_strlit("RTX 4070");
    reveal_strlit("RTX 4080");
    reveal_strlit("RTX 4090");
    reveal_strlit("RTX ADA");
    reveal_strlit("L40");
    reveal_strlit("L4");
    assert("RTX 30"@ =~= seq!['R', 'T', 'X', ' ', '3', '0']);
    lemma_absent_char("RTX 30"@, "RTX 50"@, 4);
    lemma_absent_char("RTX 30"@, "RTX 5060"@, 4);
    lemma_absent_char("RTX 30"@, "RTX 5070"@, 4);
    lemma_absent_char("RTX 30"@, "RTX 5080"@, 4);
    lemma_absent_char("RTX 30"@, "RTX 5090"@, 4);
    lemma_none_of("RTX 30"@, generation_patterns(GpuGeneration::Blackwell));
    lemma_absent_char("RTX 30"@, "RTX 40"@, 4);
    lemma_absent_char("RTX 30"@, "RTX 4060"@, 4);
    lemma_absent_char("RTX 30"@, "RTX 4070"@, 4);
    lemma_absent_char("RTX 30"@, "RTX 4080"@, 4);
    lemma_absent_char("RTX 30"@, "RTX 4090"@, 4);
    lemma_absent_char("RTX 30"@, "RTX ADA"@, 4);
    lemma_absent_char("RTX 30"@, "L40"@, 0);
    lemma_absent_char("RTX 30"@, "L4"@, 0);
    lemma_none_of("RTX 30"@, generation_patterns(GpuGeneration::AdaLovelace));
}

/// "RTX 3060" contains no pattern of a newer generation.
proof fn lemma_ampere_1_avoids_newer()
    ensures
        !matches_any("RTX 3060"@, generation_patterns(GpuGeneration::Blackwell)),
        !matches_any("RTX 3060"@, generation_patterns(GpuGeneration::AdaLovelace)),
{
    reveal_strlit("RTX 3060");
    reveal_strlit("RTX 50");
    reveal_strlit("RTX 5060");
    reveal_strlit("RTX 5070");
    reveal_strlit("RTX 5080");
    reveal_strlit("RTX 5090");
    reveal_strlit("RTX 40");
    reveal_strlit("RTX 4060");
    reveal_strlit("RTX 4070");
    reveal_strlit("RTX 4080");
    reveal_strlit("RTX 4090");
    reveal_strlit("RTX ADA");
    reveal_strlit("L40");
    reveal_strlit("L4");
    assert("RTX 3060"@ =~= seq!['R', 'T', 'X', ' ', '3', '0', '6', '0']);
    lemma_absent_char("RTX 3060"@, "RTX 50"@, 4);
    lemma_absent_char("RTX 3060"@, "RTX 5060"@, 4);
    lemma_absent_char("RTX 3060"@, "RTX 5070"@, 4);
    lemma_absent_char("RTX 3060"@, "RTX 5080"@, 4);
    lemma_absent_char("RTX 3060"@, "RTX 5090"@, 4);
    lemma_none_of("RTX 3060"@, generation_patterns(GpuGeneration::Blackwell));
    lemma_absent_char("RTX 3060"@, "RTX 40"@, 4);
    lemma_absent_char("RTX 3060"@, "RTX 4060"@, 4);
    lemma_absent_char("RTX 3060"@, "RTX 4070"@, 4);
    lemma_absent_char("RTX 3060"@, "RTX 4080"@, 4);
    lemma_absent_char("RTX 3060"@, "RTX 4090"@, 4);
    lemma_absent_char("RTX 3060"@, "RTX ADA"@, 4);
    lemma_absent_char("RTX 3060"@, "L40"@, 0);
    lemma_absent_char("RTX 3060"@, "L4"@, 0);
    lemma_none_of("RTX 3060"@, generation_patterns(GpuGeneration::AdaLovelace));
}

/// "RTX 3070" contains no pattern of a newer generation.
proof fn lemma_ampere_2_avoids_newer()
    ensures
        !matches_any("RTX 3070"@, generation_patterns(GpuGeneration::Blackwell)),
        !matches_any("RTX 3070"@, generation_patterns(GpuGeneration::AdaLovelace)),
{
    reveal_strlit("RTX 3070");
    reveal_strlit("RTX 50");
    reveal_strlit("RTX 5060");
    reveal_strlit("RTX 5070");
    reveal_strlit("RTX 5080");
    reveal_strlit("RTX 5090");
    reveal_strlit("RTX 40");
    reveal_strlit("RTX 4060");
    reveal_strlit("RTX 4070");
    reveal_strlit("RTX 4080");
    reveal_strlit("RTX 4090");
    reveal_strlit("RTX ADA");
    reveal_strlit("L40");
    reveal_strlit("L4");
    assert("RTX 3070"@ =~= seq!['R', 'T', 'X', ' ', '3', '0', '7', '0']);
    lemma_absent_char("RTX 3070"@, "RTX 50"@, 4);
    lemma_absent_char("RTX 3070"@, "RTX 5060"@, 4);
    lemma_absent_char("RTX 3070"@, "RTX 5070"@, 4);
    lemma_absent_char("RTX 3070"@, "RTX 5080"@, 4);
    lemma_absent_char("RTX 3070"@, "RTX 5090"@, 4);
    lemma_none_of("RTX 3070"@, generation_patterns(GpuGeneration::Blackwell));
    lemma_absent_char("RTX 3070"@, "RTX 40"@, 4);
    lemma_absent_char("RTX 3070"@, "RTX 4060"@, 4);
    lemma_absent_char("RTX 3070"@, "RTX 4070"@, 4);
    lemma_absent_char("RTX 3070"@, "RTX 4080"@, 4);
    lemma_absent_char("RTX 3070"@, "RTX 4090"@, 4);
    lemma_absent_char("RTX 3070"@, "RTX ADA"@, 4);
    lemma_absent_char("RTX 3070"@, "L40"@, 0);
    lemma_absent_char("RTX 3070"@, "L4"@, 0);
    lemma_none_of("RTX 3070"@, generation_patterns(GpuGeneration::AdaLovelace));
}

/// "RTX 3080" contains no pattern of a newer generation.
proof fn lemma_ampere_3_avoids_newer()
    ensures
        !matches_any("RTX 3080"@, generation_patterns(GpuGeneration::Blackwell)),
        !matches_any("RTX 3080"@, generation_patterns(GpuGeneration::AdaLovelace)),
{
    reveal_strlit("RTX 3080");
    reveal_strlit("RTX 50");
    reveal_strlit("RTX 5060");
    reveal_strlit("RTX 5070");
    reveal_strlit("RTX 5080");
    reveal_strlit("RTX 5090");
    reveal_strlit("RTX 40");
    reveal_strlit("RTX 4060");
    reveal_strlit("RTX 4070");
    reveal_strlit("RTX 4080");
    reveal_strlit("RTX 4090");
    reveal_strlit("RTX ADA");
    reveal_strlit("L40");
    reveal_strlit("L4");
    assert("RTX 3080"@ =~= seq!['R', 'T', 'X', ' ', '3', '0', '8', '0']);
    lemma_absent_char("RTX 3080"@, "RTX 50"@, 4);
    lemma_absent_char("RTX 3080"@, "RTX 5060"@, 4);
    lemma_absent_char("RTX 3080"@, "RTX 5070"@, 4);
    lemma_absent_char("RTX 3080"@, "RTX 5080"@, 4);
    lemma_absent_char("RTX 3080"@, "RTX 5090"@, 4);
    lemma_none_of("RTX 3080"@, generation_patterns(GpuGeneration::Blackwell));
    lemma_absent_char("RTX 3080"@, "RTX 40"@, 4);
    lemma_absent_char("RTX 3080"@, "RTX 4060"@, 4);
    lemma_absent_char("RTX 3080"@, "RTX 4070"@, 4);
    lemma_absent_char("RTX 3080"@, "RTX 4080"@, 4);
    lemma_absent_char("RTX 3080"@, "RTX 4090"@, 4);
    lemma_absent_char("RTX 3080"@, "RTX ADA"@, 4);
    lemma_absent_char("RTX 3080"@, "L40"@, 0);
    lemma_absent_char("RTX 3080"@, "L4"@, 0);
    lemma_none_of("RTX 3080"@, generation_patterns(GpuGeneration::AdaLovelace));
}

/// "RTX 3090" contains no pattern of a newer generation.
proof fn lemma_ampere_4_avoids_newer()
    ensures
        !matches_any("RTX 3090"@, generation_patterns(GpuGeneration::Blackwell)),
        !matches_any("RTX 3090"@, generation_patterns(GpuGeneration::AdaLovelace)),
{
    reveal_strlit("RTX 3090");
    reveal_strlit("RTX 50");
    reveal_strlit("RTX 5060");
    reveal_strlit("RTX 5070");
    reveal_strlit("RTX 5080");
    reveal_strlit("RTX 5090");
    reveal_strlit("RTX 40");
    reveal_strlit("RTX 4060");
    reveal_strlit("RTX 4070");
    reveal_strlit("RTX 4080");
    reveal_strlit("RTX 4090");
    reveal_strlit("RTX ADA");
    reveal_strlit("L40");
    reveal_strlit("L4");
    assert("RTX 3090"@ =~= seq!['R', 'T', 'X', ' ', '3', '0', '9', '0']);
    lemma_absent_char("RTX 3090"@, "RTX 50"@, 4);
    lemma_absent_char("RTX 3090"@, "RTX 5060"@, 4);
    lemma_absent_char("RTX 3090"@, "RTX 5070"@, 4);
    lemma_absent_char("RTX 3090"@, "RTX 5080"@, 4);
    lemma_absent_char("RTX 3090"@, "RTX 5090"@, 4);
    lemma_none_of("RTX 3090"@, generation_patterns(GpuGeneration::Blackwell));
    lemma_absent_char("RTX 3090"@, "RTX 40"@, 4);
    lemma_absent_char("RTX 3090"@, "RTX 4060"@, 4);
    lemma_absent_char("RTX 3090"@, "RTX 4070"@, 4);
    lemma_absent_char("RTX 3090"@, "RTX 4080"@, 4);
    lemma_absent_char("RTX 3090"@, "RTX 4090"@, 4);
    lemma_absent_char("RTX 3090"@, "RTX ADA"@, 4);
    lemma_absent_char("RTX 3090"@, "L40"@, 0);
    lemma_absent_char("RTX 3090"@, "L4"@, 0);
    lemma_none_of("RTX 3090"@, generation_patterns(GpuGeneration::AdaLovelace));
}

/// "RTX A" contains no pattern of a newer generation.
proof fn lemma_ampere_5_avoids_newer()
    ensures
        !matches_any("RTX A"@, generation_patterns(GpuGeneration::Blackwell)),
        !matches_any("RTX A"@, generation_patterns(GpuGeneration::AdaLovelace)),
{
    reveal_strlit("RTX A");
    reveal_strlit("RTX 50");
    reveal_strlit("RTX 5060");
    reveal_strlit("RTX 5070");
    reveal_strlit("RTX 5080");
    reveal_strlit("RTX 5090");
    reveal_strlit("RTX 40");
    reveal_strlit("RTX 4060");
    reveal_strlit("RTX 4070");
    reveal_strlit("RTX 4080");
    reveal_strlit("RTX 4090");
    reveal_strlit("RTX ADA");
    reveal_strlit("L40");
    reveal_strlit("L4");
    assert("RTX A"@ =~= seq!['R', 'T', 'X', ' ', 'A']);
    lemma_absent_char("RTX A"@, "RTX 50"@, 4);
    lemma_absent_char("RTX A"@, "RTX 5060"@, 4);
    lemma_absent_char("RTX A"@, "RTX 5070"@, 4);
    lemma_absent_char("RTX A"@, "RTX 5080"@, 4);
    lemma_absent_char("RTX A"@, "RTX 5090"@, 4);
    lemma_none_of("RTX A"@, generation_patterns(GpuGeneration::Blackwell));
    lemma_absent_char("RTX A"@, "RTX 40"@, 4);
    lemma_absent_char("RTX A"@, "RTX 4060"@, 4);
    lemma_absent_char("RTX A"@, "RTX 4070"@, 4);
    lemma_absent_char("RTX A"@, "RTX 4080"@, 4);
    lemma_absent_char("RTX A"@, "RTX 4090"@, 4);
    lemma_absent_char("RTX A"@, "RTX ADA"@, 5);
    lemma_absent_char("RTX A"@, "L40"@, 0);
    lemma_absent_char("RTX A"@, "L4"@, 0);
    lemma_none_of("RTX A"@, generation_patterns(GpuGeneration::AdaLovelace));
}

/// "A40" contains no pattern of a newer generation.
proof fn lemma_ampere_6_avoids_newer()
    ensures
        !matches_any("A40"@, generation_patterns(GpuGeneration::Blackwell)),
        !matches_any("A40"@, generation_patterns(GpuGeneration::AdaLovelace)),
{
    reveal_strlit("A40");
    reveal_strlit("RTX 50");
    reveal_strlit("RTX 5060");
    reveal_strlit("RTX 5070");
    reveal_strlit("RTX 5080");
    reveal_strlit("RTX 5090");
    reveal_strlit("RTX 40");
    reveal_strlit("RTX 4060");
    reveal_strlit("RTX 4070");
    reveal_strlit("RTX 4080");
    reveal_strlit("RTX 4090");
    reveal_strlit("RTX ADA");
    reveal_strlit("L40");
    reveal_strlit("L4");
    assert("A40"@ =~= seq!['A', '4', '0']);
    lemma_absent_char("A40"@, "RTX 50"@, 0);
    lemma_absent_char("A40"@, "RTX 5060"@, 0);
    lemma_absent_char("A40"@, "RTX 5070"@, 0);
    lemma_absent_char("A40"@, "RTX 5080"@, 0);
    lemma_absent_char("A40"@, "RTX 5090"@, 0);
    lemma_none_of("A40"@, generation_patterns(GpuGeneration::Blackwell));
    lemma_absent_char("A40"@, "RTX 40"@, 0);
    lemma_absent_char("A40"@, "RTX 4060"@, 0);
    lemma_absent_char("A40"@, "RTX 4070"@, 0);
    lemma_absent_char("A40"@, "RTX 4080"@, 0);
    lemma_absent_char("A40"@, "RTX 4090"@, 0);
    lemma_absent_char("A40"@, "RTX ADA"@, 0);
    lemma_absent_char("A40"@, "L40"@, 0);
    lemma_absent_char("A40"@, "L4"@, 0);
    lemma_none_of("A40"@, generation_patterns(GpuGeneration::AdaLovelace));
}

/// "A100" contains no pattern of a newer generation.
proof fn lemma_ampere_7_avoids_newer()
    ensures
        !matches_any("A100"@, generation_patterns(GpuGeneration::Blackwell)),
        !matches_any("A100"@, generation_patterns(GpuGeneration::AdaLovelace)),
{
    reveal_strlit("A100");
    reveal_strlit("RTX 50");
    reveal_strlit("RTX 5060");
    reveal_strlit("RTX 5070");
    reveal_strlit("RTX 5080");
    reveal_strlit("RTX 5090");
    reveal_strlit("RTX 40");
    reveal_strlit("RTX 4060");
    reveal_strlit("RTX 4070");
    reveal_strlit("RTX 4080");
    reveal_strlit("RTX 4090");
    reveal_strlit("RTX ADA");
    reveal_strlit("L40");
    reveal_strlit("L4");
    assert("A100"@ =~= seq!['A', '1', '0', '0']);
    lemma_absent_char("A100"@, "RTX 50"@, 0);
    lemma_absent_char("A100"@, "RTX 5060"@, 0);
    lemma_absent_char("A100"@, "RTX 5070"@, 0);
    lemma_absent_char("A100"@, "RTX 5080"@, 0);
    lemma_absent_char("A100"@, "RTX 5090"@, 0);
    lemma_none_of("A100"@, generation_patterns(GpuGeneration::Blackwell));
    lemma_absent_char("A100"@, "RTX 40"@, 0);
    lemma_absent_char("A100"@, "RTX 4060"@, 0);
    lemma_absent_char("A100"@, "RTX 4070"@, 0);
    lemma_absent_char("A100"@, "RTX 4080"@, 0);
    lemma_absent_char("A100"@, "RTX 4090"@, 0);
    lemma_absent_char("A100"@, "RTX ADA"@, 0);
    lemma_absent_char("A100"@, "L40"@, 0);
    lemma_absent_char("A100"@, "L4"@, 0);
    lemma_none_of("A100"@, generation_patterns(GpuGeneration::AdaLovelace));
}

/// The patterns of Ampere are classified as Ampere.
proof fn lemma_patterns_of_ampere()
    ensures
        forall|i: int|
            0 <= i < generation_patterns(GpuGeneration::Ampere).len() ==> generation_of_upper(
                #[trigger] generation_patterns(GpuGeneration::Ampere)[i],
            ) == GpuGeneration::Ampere,
{
    lemma_ampere_0_avoids_newer();
    lemma_ampere_1_avoids_newer();
    lemma_ampere_2_avoids_newer();
    lemma_ampere_3_avoids_newer();
    lemma_ampere_4_avoids_newer();
    lemma_ampere_5_avoids_newer();
    lemma_ampere_6_avoids_newer();
    lemma_ampere_7_avoids_newer();
    assert forall|i: int|
        0 <= i < generation_patterns(GpuGeneration::Ampere).len() implies generation_of_upper(
            #[trigger] generation_patterns(GpuGeneration::Ampere)[i],
        ) == GpuGeneration::Ampere by {
        lemma_self_infix(generation_patterns(GpuGeneration::Ampere)[i]);
    }
}

/// "GTX 16" contains no pattern of a newer generation.
proof fn lemma_turing_0_avoids_newer()
    ensures
        !matches_any("GTX 16"@, generation_patterns(GpuGeneration::Blackwell)),
        !matches_any("GTX 16"@, generation_patterns(GpuGeneration::AdaLovelace)),
        !matches_any("GTX 16"@, generation_patterns(GpuGeneration::Ampere)),
{
    reveal_strlit("GTX 16");
    reveal_strlit("RTX 50");
    reveal_strlit("RTX 5060");
    reveal_strlit("RTX 5070");
    reveal_strlit("RTX 5080");
    reveal_strlit("RTX 5090");
    reveal_strlit("RTX 40");
    reveal_strlit("RTX 4060");
    reveal_strlit("RTX 4070");
    reveal_strlit("RTX 4080");
    reveal_strlit("RTX 4090");
    reveal_strlit("RTX ADA");
    reveal_strlit("L40");
    reveal_strlit("L4");
    reveal_strlit("RTX 30");
    reveal_strlit("RTX 3060");
    reveal_strlit("RTX 3070");
    reveal_strlit("RTX 3080");
    reveal_strlit("RTX 3090");
    reveal_strlit("RTX A");
    reveal_strlit("A40");
    reveal_strlit("A100");
    assert("GTX 16"@ =~= seq!['G', 'T', 'X', ' ', '1', '6']);
    lemma_absent_char("GTX 16"@, "RTX 50"@, 0);
    lemma_absent_char("GTX 16"@, "RTX 5060"@, 0);
    lemma_absent_char("GTX 16"@, "RTX 5070"@, 0);
    lemma_absent_char("GTX 16"@, "RTX 5080"@, 0);
    lemma_absent_char("GTX 16"@, "RTX 5090"@, 0);
    lemma_none_of("GTX 16"@, generation_patterns(GpuGeneration::Blackwell));
    lemma_absent_char("GTX 16"@, "RTX 40"@, 0);
    lemma_absent_char("GTX 16"@, "RTX 4060"@, 0);
    lemma_absent_char("GTX 16"@, "RTX 4070"@, 0);
    lemma_absent_char("GTX 16"@, "RTX 4080"@, 0);
    lemma_absent_char("GTX 16"@, "RTX 4090"@, 0);
    lemma_absent_char("GTX 16"@, "RTX ADA"@, 0);
    lemma_absent_char("GTX 16"@, "L40"@, 0);
    lemma_absent_char("GTX 16"@, "L4"@, 0);
    lemma_none_of("GTX 16"@, generation_patterns(GpuGeneration::AdaLovelace));
    lemma_absent_char("GTX 16"@, "RTX 30"@, 0);
    lemma_absent_char("GTX 16"@, "RTX 3060"@, 0);
    lemma_absent_char("GTX 16"@, "RTX 3070"@, 0);
    lemma_absent_char("GTX 16"@, "RTX 3080"@, 0);
    lemma_absent_char("GTX 16"@, "RTX 3090"@, 0);
    lemma_absent_char("GTX 16"@, "RTX A"@, 0);
    lemma_absent_char("GTX 16"@, "A40"@, 0);
    lemma_absent_char("GTX 16"@, "A100"@, 0);
    lemma_none_of("GTX 16"@, generation_patterns(GpuGeneration::Ampere));
}

/// "GTX 1650" contains no pattern of a newer generation.
proof fn lemma_turing_1_avoids_newer()
    ensures
        !matches_any("GTX 1650"@, generation_patterns(GpuGeneration::Blackwell)),
        !matches_any("GTX 1650"@, generation_patterns(GpuGeneration::AdaLovelace)),
        !matches_any("GTX 1650"@, generation_patterns(GpuGeneration::Ampere)),
{
    reveal_strlit("GTX 1650");
    reveal_strlit("RTX 50");
    reveal_strlit("RTX 5060");
    reveal_strlit("RTX 5070");
    reveal_strlit("RTX 5080");
    reveal_strlit("RTX 5090");
    reveal_strlit("RTX 40");
    reveal_strlit("RTX 4060");
    reveal_strlit("RTX 4070");
    reveal_strlit("RTX 4080");
    reveal_strlit("RTX 4090");
    reveal_strlit("RTX ADA");
    reveal_strlit("L40");
    reveal_strlit("L4");
    reveal_strlit("RTX 30");
    reveal_strlit("RTX 3060");
    reveal_strlit("RTX 3070");
    reveal_strlit("RTX 3080");
    reveal_strlit("RTX 3090");
    reveal_strlit("RTX A");
    reveal_strlit("A40");
    reveal_strlit("A100");
    assert("GTX 1650"@ =~= seq!['G', 'T', 'X', ' ', '1', '6', '5', '0']);
    lemma_absent_char("GTX 1650"@, "RTX 50"@, 0);
    lemma_absent_char("GTX 1650"@, "RTX 5060"@, 0);
    lemma_absent_char("GTX 1650"@, "RTX 5070"@, 0);
    lemma_absent_char("GTX 1650"@, "RTX 5080"@, 0);
    lemma_absent_char("GTX 1650"@, "RTX 5090"@, 0);
    lemma_none_of("GTX 1650"@, generation_patterns(GpuGeneration::Blackwell));
    lemma_absent_char("GTX 1650"@, "RTX 40"@, 0);
    lemma_absent_char("GTX 1650"@, "RTX 4060"@, 0);
    lemma_absent_char("GTX 1650"@, "RTX 4070"@, 0);
    lemma_absent_char("GTX 1650"@, "RTX 4080"@, 0);
    lemma_absent_char("GTX 1650"@, "RTX 4090"@, 0);
    lemma_absent_char("GTX 1650"@, "RTX ADA"@, 0);
    lemma_absent_char("GTX 1650"@, "L40"@, 0);
    lemma_absent_char("GTX 1650"@, "L4"@, 0);
    lemma_none_of("GTX 1650"@, generation_patterns(GpuGeneration::AdaLovelace));
    lemma_absent_char("GTX 1650"@, "RTX 30"@, 0);
    lemma_absent_char("GTX 1650"@, "RTX 3060"@, 0);
    lemma_absent_char("GTX 1650"@, "RTX 3070"@, 0);
    lemma_absent_char("GTX 1650"@, "RTX 3080"@, 0);
    lemma_absent_char("GTX 1650"@, "RTX 3090"@, 0);
    lemma_absent_char("GTX 1650"@, "RTX A"@, 0);
    lemma_absent_char("GTX 1650"@, "A40"@, 0);
    lemma_absent_char("GTX 1650"@, "A100"@, 0);
    lemma_none_of("GTX 1650"@, generation_patterns(GpuGeneration::Ampere));
}

/// "GTX 1660" contains no pattern of a newer generation.
proof fn lemma_turing_2_avoids_newer()
    ensures
        !matches_any("GTX 1660"@, generation_patterns(GpuGeneration::Blackwell)),
        !matches_any("GTX 1660"@, generation_patterns(GpuGeneration::AdaLovelace)),
        !matches_any("GTX 1660"@, generation_patterns(GpuGeneration::Ampere)),
{
    reveal_strlit("GTX 1660");
    reveal_strlit("RTX 50");
    reveal_strlit("RTX 5060");
    reveal_strlit("RTX 5070");
    reveal_strlit("RTX 5080");
    reveal_strlit("RTX 5090");
    reveal_strlit("RTX 40");
    reveal_strlit("RTX 4060");
    reveal_strlit("RTX 4070");
    reveal_strlit("RTX 4080");
    reveal_strlit("RTX 4090");
    reveal_strlit("RTX ADA");
    reveal_strlit("L40");
    reveal_strlit("L4");
    reveal_strlit("RTX 30");
    reveal_strlit("RTX 3060");
    reveal_strlit("RTX 3070");
    reveal_strlit("RTX 3080");
    reveal_strlit("RTX 3090");
    reveal_strlit("RTX A");
    reveal_strlit("A40");
    reveal_strlit("A100");
    assert("GTX 1660"@ =~= seq!['G', 'T', 'X', ' ', '1', '6', '6', '0']);
    lemma_absent_char("GTX 1660"@, "RTX 50"@, 0);
    lemma_absent_char("GTX 1660"@, "RTX 5060"@, 0);
    lemma_absent_char("GTX 1660"@, "RTX 5070"@, 0);
    lemma_absent_char("GTX 1660"@, "RTX 5080"@, 0);
    lemma_absent_char("GTX 1660"@, "RTX 5090"@, 0);
    lemma_none_of("GTX 1660"@, generation_patterns(GpuGeneration::Blackwell));
    lemma_absent_char("GTX 1660"@, "RTX 40"@, 0);
    lemma_absent_char("GTX 1660"@, "RTX 4060"@, 0);
    lemma_absent_char("GTX 1660"@, "RTX 4070"@, 0);
    lemma_absent_char("GTX 1660"@, "RTX 4080"@, 0);
    lemma_absent_char("GTX 1660"@, "RTX 4090"@, 0);
    lemma_absent_char("GTX 1660"@, "RTX ADA"@, 0);
    lemma_absent_char("GTX 1660"@, "L40"@, 0);
    lemma_absent_char("GTX 1660"@, "L4"@, 0);
    lemma_none_of("GTX 1660"@, generation_patterns(GpuGeneration::AdaLovelace));
    lemma_absent_char("GTX 1660"@, "RTX 30"@, 0);
    lemma_absent_char("GTX 1660"@, "RTX 3060"@, 0);
    lemma_absent_char("GTX 1660"@, "RTX 3070"@, 0);
    lemma_absent_char("GTX 1660"@, "RTX 3080"@, 0);
    lemma_absent_char("GTX 1660"@, "RTX 3090"@, 0);
    lemma_absent_char("GTX 1660"@, "RTX A"@, 0);
    lemma_absent_char("GTX 1660"@, "A40"@, 0);
    lemma_absent_char("GTX 1660"@, "A100"@, 0);
    lemma_none_of("GTX 1660"@, generation_patterns(GpuGeneration::Ampere));
}

/// "RTX 20" contains no pattern of a newer generation.
proof fn lemma_turing_3_avoids_newer()
    ensures
        !matches_any("RTX 20"@, generation_patterns(GpuGeneration::Blackwell)),
        !matches_any("RTX 20"@, generation_patterns(GpuGeneration::AdaLovelace)),
        !matches_any("RTX 20"@, generation_patterns(GpuGeneration::Ampere)),
{
    reveal_strlit("RTX 20");
    reveal_strlit("RTX 50");
    reveal_strlit("RTX 5060");
    reveal_strlit("RTX 5070");
    reveal_strlit("RTX 5080");
    reveal_strlit("RTX 5090");
    reveal_strlit("RTX 40");
    reveal_strlit("RTX 4060");
    reveal_strlit("RTX 4070");
    reveal_strlit("RTX 4080");
    reveal_strlit("RTX 4090");
    reveal_strlit("RTX ADA");
    reveal_strlit("L40");
    reveal_strlit("L4");
    reveal_strlit("RTX 30");
    reveal_strlit("RTX 3060");
    reveal_strlit("RTX 3070");
    reveal_strlit("RTX 3080");
    reveal_strlit("RTX 3090");
    reveal_strlit("RTX A");
    reveal_strlit("A40");
    reveal_strlit("A100");
    assert("RTX 20"@ =~= seq!['R', 'T', 'X', ' ', '2', '0']);
    lemma_absent_char("RTX 20"@, "RTX 50"@, 4);
    lemma_absent_char("RTX 20"@, "RTX 5060"@, 4);
    lemma_absent_char("RTX 20"@, "RTX 5070"@, 4);
    lemma_absent_char("RTX 20"@, "RTX 5080"@, 4);
    lemma_absent_char("RTX 20"@, "RTX 5090"@, 4);
    lemma_none_of("RTX 20"@, generation_patterns(GpuGeneration::Blackwell));
    lemma_absent_char("RTX 20"@, "RTX 40"@, 4);
    lemma_absent_char("RTX 20"@, "RTX 4060"@, 4);
    lemma_absent_char("RTX 20"@, "RTX 4070"@, 4);
    lemma_absent_char("RTX 20"@, "RTX 4080"@, 4);
    lemma_absent_char("RTX 20"@, "RTX 4090"@, 4);
    lemma_absent_char("RTX 20"@, "RTX ADA"@, 4);
    lemma_absent_char("RTX 20"@, "L40"@, 0);
    lemma_absent_char("RTX 20"@, "L4"@, 0);
    lemma_none_of("RTX 20"@, generation_patterns(GpuGeneration::AdaLovelace));
    lemma_absent_char("RTX 20"@, "RTX 30"@, 4);
    lemma_absent_char("RTX 20"@, "RTX 3060"@, 4);
    lemma_absent_char("RTX 20"@, "RTX 3070"@, 4);
    lemma_absent_char("RTX 20"@, "RTX 3080"@, 4);
    lemma_absent_char("RTX 20"@, "RTX 3090"@, 4);
    lemma_absent_char("RTX 20"@, "RTX A"@, 4);
    lemma_absent_char("RTX 20"@, "A40"@, 0);
    lemma_absent_char("RTX 20"@, "A100"@, 0);
    lemma_none_of("RTX 20"@, generation_patterns(GpuGeneration::Ampere));
}

/// "RTX 2060" contains no pattern of a newer generation.
proof fn lemma_turing_4_avoids_newer()
    ensures
        !matches_any("RTX 2060"@, generation_patterns(GpuGeneration::Blackwell)),
        !matches_any("RTX 2060"@, generation_patterns(GpuGeneration::AdaLovelace)),
        !matches_any("RTX 2060"@, generation_patterns(GpuGeneration::Ampere)),
{
    reveal_strlit("RTX 2060");
    reveal_strlit("RTX 50");
    reveal_strlit("RTX 5060");
    reveal_strlit("RTX 5070");
    reveal_strlit("RTX 5080");
    reveal_strlit("RTX 5090");
    reveal_strlit("RTX 40");
    reveal_strlit("RTX 4060");
    reveal_strlit("RTX 4070");
    reveal_strlit("RTX 4080");
    reveal_strlit("RTX 4090");
    reveal_strlit("RTX ADA");
    reveal_strlit("L40");
    reveal_strlit("L4");
    reveal_strlit("RTX 30");
    reveal_strlit("RTX 3060");
    reveal_strlit("RTX 3070");
    reveal_strlit("RTX 3080");
    reveal_strlit("RTX 3090");
    reveal_strlit("RTX A");
    reveal_strlit("A40");
    reveal_strlit("A100");
    assert("RTX 2060"@ =~= seq!['R', 'T', 'X', ' ', '2', '0', '6', '0']);
    lemma_absent_char("RTX 2060"@, "RTX 50"@, 4);
    lemma_absent_char("RTX 2060"@, "RTX 5060"@, 4);
    lemma_absent_char("RTX 2060"@, "RTX 5070"@, 4);
    lemma_absent_char("RTX 2060"@, "RTX 5080"@, 4);
    lemma_absent_char("RTX 2060"@, "RTX 5090"@, 4);
    lemma_none_of("RTX 2060"@, generation_patterns(GpuGeneration::Blackwell));
    lemma_absent_char("RTX 2060"@, "RTX 40"@, 4);
    lemma_absent_char("RTX 2060"@, "RTX 4060"@, 4);
    lemma_absent_char("RTX 2060"@, "RTX 4070"@, 4);
    lemma_absent_char("RTX 2060"@, "RTX 4080"@, 4);
    lemma_absent_char("RTX 2060"@, "RTX 4090"@, 4);
    lemma_absent_char("RTX 2060"@, "RTX ADA"@, 4);
    lemma_absent_char("RTX 2060"@, "L40"@, 0);
    lemma_absent_char("RTX 2060"@, "L4"@, 0);
    lemma_none_of("RTX 2060"@, generation_patterns(GpuGeneration::AdaLovelace));
    lemma_absent_char("RTX 2060"@, "RTX 30"@, 4);
    lemma_absent_char("RTX 2060"@, "RTX 3060"@, 4);
    lemma_absent_char("RTX 2060"@, "RTX 3070"@, 4);
    lemma_absent_char("RTX 2060"@, "RTX 3080"@, 4);
    lemma_absent_char("RTX 2060"@, "RTX 3090"@, 4);
    lemma_absent_char("RTX 2060"@, "RTX A"@, 4);
    lemma_absent_char("RTX 2060"@, "A40"@, 0);
    lemma_absent_char("RTX 2060"@, "A100"@, 0);
    lemma_none_of("RTX 2060"@, generation_patterns(GpuGeneration::Ampere));
}

/// "RTX 2070" contains no pattern of a newer generation.
proof fn lemma_turing_5_avoids_newer()
    ensures
        !matches_any("RTX 2070"@, generation_patterns(GpuGeneration::Blackwell)),
        !matches_any("RTX 2070"@, generation_patterns(GpuGeneration::AdaLovelace)),
        !matches_any("RTX 2070"@, generation_patterns(GpuGeneration::Ampere)),
{
    reveal_strlit("RTX 2070");
    reveal_strlit("RTX 50");
    reveal_strlit("RTX 5060");
    reveal_strlit("RTX 5070");
    reveal_strlit("RTX 5080");
    reveal_strlit("RTX 5090");
    reveal_strlit("RTX 40");
    reveal_strlit("RTX 4060");
    reveal_strlit("RTX 4070");
    reveal_strlit("RTX 4080");
    reveal_strlit("RTX 4090");
    reveal_strlit("RTX ADA");
    reveal_strlit("L40");
    reveal_strlit("L4");
    reveal_strlit("RTX 30");
    reveal_strlit("RTX 3060");
    reveal_strlit("RTX 3070");
    reveal_strlit("RTX 3080");
    reveal_strlit("RTX 3090");
    reveal_strlit("RTX A");
    reveal_strlit("A40");
    reveal_strlit("A100");
    assert("RTX 2070"@ =~= seq!['R', 'T', 'X', ' ', '2', '0', '7', '0']);
    lemma_absent_char("RTX 2070"@, "RTX 50"@, 4);
    lemma_absent_char("RTX 2070"@, "RTX 5060"@, 4);
    lemma_absent_char("RTX 2070"@, "RTX 5070"@, 4);
    lemma_absent_char("RTX 2070"@, "RTX 5080"@, 4);
    lemma_absent_char("RTX 2070"@, "RTX 5090"@, 4);
    lemma_none_of("RTX 2070"@, generation_patterns(GpuGeneration::Blackwell));
    lemma_absent_char("RTX 2070"@, "RTX 40"@, 4);
    lemma_absent_char("RTX 2070"@, "RTX 4060"@, 4);
    lemma_absent_char("RTX 2070"@, "RTX 4070"@, 4);
    lemma_absent_char("RTX 2070"@, "RTX 4080"@, 4);
    lemma_absent_char("RTX 2070"@, "RTX 4090"@, 4);
    lemma_absent_char("RTX 2070"@, "RTX ADA"@, 4);
    lemma_absent_char("RTX 2070"@, "L40"@, 0);
    lemma_absent_char("RTX 2070"@, "L4"@, 0);
    lemma_none_of("RTX 2070"@, generation_patterns(GpuGeneration::AdaLovelace));
    lemma_absent_char("RTX 2070"@, "RTX 30"@, 4);
    lemma_absent_char("RTX 2070"@, "RTX 3060"@, 4);
    lemma_absent_char("RTX 2070"@, "RTX 3070"@, 4);
    lemma_absent_char("RTX 2070"@, "RTX 3080"@, 4);
    lemma_absent_char("RTX 2070"@, "RTX 3090"@, 4);
    lemma_absent_char("RTX 2070"@, "RTX A"@, 4);
    lemma_absent_char("RTX 2070"@, "A40"@, 0);
    lemma_absent_char("RTX 2070"@, "A100"@, 0);
    lemma_none_of("RTX 2070"@, generation_patterns(GpuGeneration::Ampere));
}

/// "RTX 2080" contains no pattern of a newer generation.
proof fn lemma_turing_6_avoids_newer()
    ensures
        !matches_any("RTX 2080"@, generation_patterns(GpuGeneration::Blackwell)),
        !matches_any("RTX 2080"@, generation_patterns(GpuGeneration::AdaLovelace)),
        !matches_any("RTX 2080"@, generation_patterns(GpuGeneration::Ampere)),
{
    reveal_strlit("RTX 2080");
    reveal_strlit("RTX 50");
    reveal_strlit("RTX 5060");
    reveal_strlit("RTX 5070");
    reveal_strlit("RTX 5080");
    reveal_strlit("RTX 5090");
    reveal_strlit("RTX 40");
    reveal_strlit("RTX 4060");
    reveal_strlit("RTX 4070");
    reveal_strlit("RTX 4080");
    reveal_strlit("RTX 4090");
    reveal_strlit("RTX ADA");
    reveal_strlit("L40");
    reveal_strlit("L4");
    reveal_strlit("RTX 30");
    reveal_strlit("RTX 3060");
    reveal_strlit("RTX 3070");
    reveal_strlit("RTX 3080");
    reveal_strlit("RTX 3090");
    reveal_strlit("RTX A");
    reveal_strlit("A40");
    reveal_strlit("A100");
    assert("RTX 2080"@ =~= seq!['R', 'T', 'X', ' ', '2', '0', '8', '0']);
    lemma_absent_char("RTX 2080"@, "RTX 50"@, 4);
    lemma_absent_char("RTX 2080"@, "RTX 5060"@, 4);
    lemma_absent_char("RTX 2080"@, "RTX 5070"@, 4);
    lemma_absent_char("RTX 2080"@, "RTX 5080"@, 4);
    lemma_absent_char("RTX 2080"@, "RTX 5090"@, 4);
    lemma_none_of("RTX 2080"@, generation_patterns(GpuGeneration::Blackwell));
    lemma_absent_char("RTX 2080"@, "RTX 40"@, 4);
    lemma_absent_char("RTX 2080"@, "RTX 4060"@, 4);
    lemma_absent_char("RTX 2080"@, "RTX 4070"@, 4);
    lemma_absent_char("RTX 2080"@, "RTX 4080"@, 4);
    lemma_absent_char("RTX 2080"@, "RTX 4090"@, 4);
    lemma_absent_char("RTX 2080"@, "RTX ADA"@, 4);
    lemma_absent_char("RTX 2080"@, "L40"@, 0);
    lemma_absent_char("RTX 2080"@, "L4"@, 0);
    lemma_none_of("RTX 2080"@, generation_patterns(GpuGeneration::AdaLovelace));
    lemma_absent_char("RTX 2080"@, "RTX 30"@, 4);
    lemma_absent_char("RTX 2080"@, "RTX 3060"@, 4);
    lemma_absent_char("RTX 2080"@, "RTX 3070"@, 4);
    lemma_absent_char("RTX 2080"@, "RTX 3080"@, 4);
    lemma_absent_char("RTX 2080"@, "RTX 3090"@, 4);
    lemma_absent_char("RTX 2080"@, "RTX A"@, 4);
    lemma_absent_char("RTX 2080"@, "A40"@, 0);
    lemma_absent_char("RTX 2080"@, "A100"@, 0);
    lemma_none_of("RTX 2080"@, generation_patterns(GpuGeneration::Ampere));
}

/// "TITAN RTX" contains no pattern of a newer generation.
proof fn lemma_turing_7_avoids_newer()
    ensures
        !matches_any("TITAN RTX"@, generation_patterns(GpuGeneration::Blackwell)),
        !matches_any("TITAN RTX"@, generation_patterns(GpuGeneration::AdaLovelace)),
        !matches_any("TITAN RTX"@, generation_patterns(GpuGeneration::Ampere)),
{
    reveal_strlit("TITAN RTX");
    reveal_strlit("RTX 50");
    reveal_strlit("RTX 5060");
    reveal_strlit("RTX 5070");
    reveal_strlit("RTX 5080");
    reveal_strlit("RTX 5090");
    reveal_strlit("RTX 40");
    reveal_strlit("RTX 4060");
    reveal_strlit("RTX 4070");
    reveal_strlit("RTX 4080");
    reveal_strlit("RTX 4090");
    reveal_strlit("RTX ADA");
    reveal_strlit("L40");
    reveal_strlit("L4");
    reveal_strlit("RTX 30");
    reveal_strlit("RTX 3060");
    reveal_strlit("RTX 3070");
    reveal_strlit("RTX 3080");
    reveal_strlit("RTX 3090");
    reveal_strlit("RTX A");
    reveal_strlit("A40");
    reveal_strlit("A100");
    assert("TITAN RTX"@ =~= seq!['T', 'I', 'T', 'A', 'N', ' ', 'R', 'T', 'X']);
    lemma_absent_char("TITAN RTX"@, "RTX 50"@, 4);
    lemma_absent_char("TITAN RTX"@, "RTX 5060"@, 4);
    lemma_absent_char("TITAN RTX"@, "RTX 5070"@, 4);
    lemma_absent_char("TITAN RTX"@, "RTX 5080"@, 4);
    lemma_absent_char("TITAN RTX"@, "RTX 5090"@, 4);
    lemma_none_of("TITAN RTX"@, generation_patterns(GpuGeneration::Blackwell));
    lemma_absent_char("TITAN RTX"@, "RTX 40"@, 4);
    lemma_absent_char("TITAN RTX"@, "RTX 4060"@, 4);
    lemma_absent_char("TITAN RTX"@, "RTX 4070"@, 4);
    lemma_absent_char("TITAN RTX"@, "RTX 4080"@, 4);
    lemma_absent_char("TITAN RTX"@, "RTX 4090"@, 4);
    lemma_absent_char("TITAN RTX"@, "RTX ADA"@, 5);
    lemma_absent_char("TITAN RTX"@, "L40"@, 0);
    lemma_absent_char("TITAN RTX"@, "L4"@, 0);
    lemma_none_of("TITAN RTX"@, generation_patterns(GpuGeneration::AdaLovelace));
    lemma_absent_char("TITAN RTX"@, "RTX 30"@, 4);
    lemma_absent_char("TITAN RTX"@, "RTX 3060"@, 4);
    lemma_absent_char("TITAN RTX"@, "RTX 3070"@, 4);
    lemma_absent_char("TITAN RTX"@, "RTX 3080"@, 4);
    lemma_absent_char("TITAN RTX"@, "RTX 3090"@, 4);
    lemma_misaligned("TITAN RTX"@, "RTX A"@, 0, 0);
    lemma_absent_char("TITAN RTX"@, "A40"@, 1);
    lemma_absent_char("TITAN RTX"@, "A100"@, 1);
    lemma_none_of("TITAN RTX"@, generation_patterns(GpuGeneration::Ampere));
}

/// The patterns of Turing are classified as Turing.
proof fn lemma_patterns_of_turing()
    ensures
        forall|i: int|
            0 <= i < generation_patterns(GpuGeneration::Turing).len() ==> generation_of_upper(
                #[trigger] generation_patterns(GpuGeneration::Turing)[i],
            ) == GpuGeneration::Turing,
{
    lemma_turing_0_avoids_newer();
    lemma_turing_1_avoids_newer();
    lemma_turing_2_avoids_newer();
    lemma_turing_3_avoids_newer();
    lemma_turing_4_avoids_newer();
    lemma_turing_5_avoids_newer();
    lemma_turing_6_avoids_newer();
    lemma_turing_7_avoids_newer();
    assert forall|i: int|
        0 <= i < generation_patterns(GpuGeneration::Turing).len() implies generation_of_upper(
            #[trigger] generation_patterns(GpuGeneration::Turing)[i],
        ) == GpuGeneration::Turing by {
        lemma_self_infix(generation_patterns(GpuGeneration::Turing)[i]);
    }
}

/// "GTX 10" contains no pattern of a newer generation.
proof fn lemma_pascal_0_avoids_newer()
    ensures
        !matches_any("GTX 10"@, generation_patterns(GpuGeneration::Blackwell)),
        !matches_any("GTX 10"@, generation_patterns(GpuGeneration::AdaLovelace)),
        !matches_any("GTX 10"@, generation_patterns(GpuGeneration::Ampere)),
        !matches_any("GTX 10"@, generation_patterns(GpuGeneration::Turing)),
{
    reveal_strlit("GTX 10");
    reveal_strlit("RTX 50");
    reveal_strlit("RTX 5060");
    reveal_strlit("RTX 5070");
    reveal_strlit("RTX 5080");
    reveal_strlit("RTX 5090");
    reveal_strlit("RTX 40");
    reveal_strlit("RTX 4060");
    reveal_strlit("RTX 4070");
    reveal_strlit("RTX 4080");
    reveal_strlit("RTX 4090");
    reveal_strlit("RTX ADA");
    reveal_strlit("L40");
    reveal_strlit("L4");
    reveal_strlit("RTX 30");
    reveal_strlit("RTX 3060");
    reveal_strlit("RTX 3070");
    reveal_strlit("RTX 3080");
    reveal_strlit("RTX 3090");
    reveal_strlit("RTX A");
    reveal_strlit("A40");
    reveal_strlit("A100");
    reveal_strlit("GTX 16");
    reveal_strlit("GTX 1650");
    reveal_strlit("GTX 1660");
    reveal_strlit("RTX 20");
    reveal_strlit("RTX 2060");
    reveal_strlit("RTX 2070");
    reveal_strlit("RTX 2080");
    reveal_strlit("TITAN RTX");
    assert("GTX 10"@ =~= seq!['G', 'T', 'X', ' ', '1', '0']);
    lemma_absent_char("GTX 10"@, "RTX 50"@, 0);
    lemma_absent_char("GTX 10"@, "RTX 5060"@, 0);
    lemma_absent_char("GTX 10"@, "RTX 5070"@, 0);
    lemma_absent_char("GTX 10"@, "RTX 5080"@, 0);
    lemma_absent_char("GTX 10"@, "RTX 5090"@, 0);
    lemma_none_of("GTX 10"@, generation_patterns(GpuGeneration::Blackwell));
    lemma_absent_char("GTX 10"@, "RTX 40"@, 0);
    lemma_absent_char("GTX 10"@, "RTX 4060"@, 0);
    lemma_absent_char("GTX 10"@, "RTX 4070"@, 0);
    lemma_absent_char("GTX 10"@, "RTX 4080"@, 0);
    lemma_absent_char("GTX 10"@, "RTX 4090"@, 0);
    lemma_absent_char("GTX 10"@, "RTX ADA"@, 0);
    lemma_absent_char("GTX 10"@, "L40"@, 0);
    lemma_absent_char("GTX 10"@, "L4"@, 0);
    lemma_none_of("GTX 10"@, generation_patterns(GpuGeneration::AdaLovelace));
    lemma_absent_char("GTX 10"@, "RTX 30"@, 0);
    lemma_absent_char("GTX 10"@, "RTX 3060"@, 0);
    lemma_absent_char("GTX 10"@, "RTX 3070"@, 0);
    lemma_absent_char("GTX 10"@, "RTX 3080"@, 0);
    lemma_absent_char("GTX 10"@, "RTX 3090"@, 0);
    lemma_absent_char("GTX 10"@, "RTX A"@, 0);
    lemma_absent_char("GTX 10"@, "A40"@, 0);
    lemma_absent_char("GTX 10"@, "A100"@, 0);
    lemma_none_of("GTX 10"@, generation_patterns(GpuGeneration::Ampere));
    lemma_absent_char("GTX 10"@, "GTX 16"@, 5);
    lemma_absent_char("GTX 10"@, "GTX 1650"@, 5);
    lemma_absent_char("GTX 10"@, "GTX 1660"@, 5);
    lemma_absent_char("GTX 10"@, "RTX 20"@, 0);
    lemma_absent_char("GTX 10"@, "RTX 2060"@, 0);
    lemma_absent_char("GTX 10"@, "RTX 2070"@, 0);
    lemma_absent_char("GTX 10"@, "RTX 2080"@, 0);
    lemma_absent_char("GTX 10"@, "TITAN RTX"@, 1);
    lemma_none_of("GTX 10"@, generation_patterns(GpuGeneration::Turing));
}

/// "GTX 1050" contains no pattern of a newer generation.
proof fn lemma_pascal_1_avoids_newer()
    ensures
        !matches_any("GTX 1050"@, generation_patterns(GpuGeneration::Blackwell)),
        !matches_any("GTX 1050"@, generation_patterns(GpuGeneration::AdaLovelace)),
        !matches_any("GTX 1050"@, generation_patterns(GpuGeneration::Ampere)),
        !matches_any("GTX 1050"@, generation_patterns(GpuGeneration::Turing)),
{
    reveal_strlit("GTX 1050");
    reveal_strlit("RTX 50");
    reveal_strlit("RTX 5060");
    reveal_strlit("RTX 5070");
    reveal_strlit("RTX 5080");
    reveal_strlit("RTX 5090");
    reveal_strlit("RTX 40");
    reveal_strlit("RTX 4060");
    reveal_strlit("RTX 4070");
    reveal_strlit("RTX 4080");
    reveal_strlit("RTX 4090");
    reveal_strlit("RTX ADA");
    reveal_strlit("L40");
    reveal_strlit("L4");
    reveal_strlit("RTX 30");
    reveal_strlit("RTX 3060");
    reveal_strlit("RTX 3070");
    reveal_strlit("RTX 3080");
    reveal_strlit("RTX 3090");
    reveal_strlit("RTX A");
    reveal_strlit("A40");
    reveal_strlit("A100");
    reveal_strlit("GTX 16");
    reveal_strlit("GTX 1650");
    reveal_strlit("GTX 1660");
    reveal_strlit("RTX 20");
    reveal_strlit("RTX 2060");
    reveal_strlit("RTX 2070");
    reveal_strlit("RTX 2080");
    reveal_strlit("TITAN RTX");
    assert("GTX 1050"@ =~= seq!['G', 'T', 'X', ' ', '1', '0', '5', '0']);
    lemma_absent_char("GTX 1050"@, "RTX 50"@, 0);
    lemma_absent_char("GTX 1050"@, "RTX 5060"@, 0);
    lemma_absent_char("GTX 1050"@, "RTX 5070"@, 0);
    lemma_absent_char("GTX 1050"@, "RTX 5080"@, 0);
    lemma_absent_char("GTX 1050"@, "RTX 5090"@, 0);
    lemma_none_of("GTX 1050"@, generation_patterns(GpuGeneration::Blackwell));
    lemma_absent_char("GTX 1050"@, "RTX 40"@, 0);
    lemma_absent_char("GTX 1050"@, "RTX 4060"@, 0);
    lemma_absent_char("GTX 1050"@, "RTX 4070"@, 0);
    lemma_absent_char("GTX 1050"@, "RTX 4080"@, 0);
    lemma_absent_char("GTX 1050"@, "RTX 4090"@, 0);
    lemma_absent_char("GTX 1050"@, "RTX ADA"@, 0);
    lemma_absent_char("GTX 1050"@, "L40"@, 0);
    lemma_absent_char("GTX 1050"@, "L4"@, 0);
    lemma_none_of("GTX 1050"@, generation_patterns(GpuGeneration::AdaLovelace));
    lemma_absent_char("GTX 1050"@, "RTX 30"@, 0);
    lemma_absent_char("GTX 1050"@, "RTX 3060"@, 0);
    lemma_absent_char("GTX 1050"@, "RTX 3070"@, 0);
    lemma_absent_char("GTX 1050"@, "RTX 3080"@, 0);
    lemma_absent_char("GTX 1050"@, "RTX 3090"@, 0);
    lemma_absent_char("GTX 1050"@, "RTX A"@, 0);
    lemma_absent_char("GTX 1050"@, "A40"@, 0);
    lemma_absent_char("GTX 1050"@, "A100"@, 0);
    lemma_none_of("GTX 1050"@, generation_patterns(GpuGeneration::Ampere));
    lemma_absent_char("GTX 1050"@, "GTX 16"@, 5);
    lemma_absent_char("GTX 1050"@, "GTX 1650"@, 5);
    lemma_absent_char("GTX 1050"@, "GTX 1660"@, 5);
    lemma_absent_char("GTX 1050"@, "RTX 20"@, 0);
    lemma_absent_char("GTX 1050"@, "RTX 2060"@, 0);
    lemma_absent_char("GTX 1050"@, "RTX 2070"@, 0);
    lemma_absent_char("GTX 1050"@, "RTX 2080"@, 0);
    lemma_absent_char("GTX 1050"@, "TITAN RTX"@, 1);
    lemma_none_of("GTX 1050"@, generation_patterns(GpuGeneration::Turing));
}

/// "GTX 1060" contains no pattern of a newer generation.
proof fn lemma_pascal_2_avoids_newer()
    ensures
        !matches_any("GTX 1060"@, generation_patterns(GpuGeneration::Blackwell)),
        !matches_any("GTX 1060"@, generation_patterns(GpuGeneration::AdaLovelace)),
        !matches_any("GTX 1060"@, generation_patterns(GpuGeneration::Ampere)),
        !matches_any("GTX 1060"@, generation_patterns(GpuGeneration::Turing)),
{
    reveal_strlit("GTX 1060");
    reveal_strlit("RTX 50");
    reveal_strlit("RTX 5060");
    reveal_strlit("RTX 5070");
    reveal_strlit("RTX 5080");
    reveal_strlit("RTX 5090");
    reveal_strlit("RTX 40");
    reveal_strlit("RTX 4060");
    reveal_strlit("RTX 4070");
    reveal_strlit("RTX 4080");
    reveal_strlit("RTX 4090");
    reveal_strlit("RTX ADA");
    reveal_strlit("L40");
    reveal_strlit("L4");
    reveal_strlit("RTX 30");
    reveal_strlit("RTX 3060");
    reveal_strlit("RTX 3070");
    reveal_strlit("RTX 3080");
    reveal_strlit("RTX 3090");
    reveal_strlit("RTX A");
    reveal_strlit("A40");
    reveal_strlit("A100");
    reveal_strlit("GTX 16");
    reveal_strlit("GTX 1650");
    reveal_strlit("GTX 1660");
    reveal_strlit("RTX 20");
    reveal_strlit("RTX 2060");
    reveal_strlit("RTX 2070");
    reveal_strlit("RTX 2080");
    reveal_strlit("TITAN RTX");
    assert("GTX 1060"@ =~= seq!['G', 'T', 'X', ' ', '1', '0', '6', '0']);
    lemma_absent_char("GTX 1060"@, "RTX 50"@, 0);
    lemma_absent_char("GTX 1060"@, "RTX 5060"@, 0);
    lemma_absent_char("GTX 1060"@, "RTX 5070"@, 0);
    lemma_absent_char("GTX 1060"@, "RTX 5080"@, 0);
    lemma_absent_char("GTX 1060"@, "RTX 5090"@, 0);
    lemma_none_of("GTX 1060"@, generation_patterns(GpuGeneration::Blackwell));
    lemma_absent_char("GTX 1060"@, "RTX 40"@, 0);
    lemma_absent_char("GTX 1060"@, "RTX 4060"@, 0);
    lemma_absent_char("GTX 1060"@, "RTX 4070"@, 0);
    lemma_absent_char("GTX 1060"@, "RTX 4080"@, 0);
    lemma_absent_char("GTX 1060"@, "RTX 4090"@, 0);
    lemma_absent_char("GTX 1060"@, "RTX ADA"@, 0);
    lemma_absent_char("GTX 1060"@, "L40"@, 0);
    lemma_absent_char("GTX 1060"@, "L4"@, 0);
    lemma_none_of("GTX 1060"@, generation_patterns(GpuGeneration::AdaLovelace));
    lemma_absent_char("GTX 1060"@, "RTX 30"@, 0);
    lemma_absent_char("GTX 1060"@, "RTX 3060"@, 0);
    lemma_absent_char("GTX 1060"@, "RTX 3070"@, 0);
    lemma_absent_char("GTX 1060"@, "RTX 3080"@, 0);
    lemma_absent_char("GTX 1060"@, "RTX 3090"@, 0);
    lemma_absent_char("GTX 1060"@, "RTX A"@, 0);
    lemma_absent_char("GTX 1060"@, "A40"@, 0);
    lemma_absent_char("GTX 1060"@, "A100"@, 0);
    lemma_none_of("GTX 1060"@, generation_patterns(GpuGeneration::Ampere));
    lemma_misaligned("GTX 1060"@, "GTX 16"@, 0, 5);
    lemma_absent_char("GTX 1060"@, "GTX 1650"@, 6);
    lemma_misaligned("GTX 1060"@, "GTX 1660"@, 0, 5);
    lemma_absent_char("GTX 1060"@, "RTX 20"@, 0);
    lemma_absent_char("GTX 1060"@, "RTX 2060"@, 0);
    lemma_absent_char("GTX 1060"@, "RTX 2070"@, 0);
    lemma_absent_char("GTX 1060"@, "RTX 2080"@, 0);
    lemma_absent_char("GTX 1060"@, "TITAN RTX"@, 1);
    lemma_none_of("GTX 1060"@, generation_patterns(GpuGeneration::Turing));
}

/// "GTX 1070" contains no pattern of a newer generation.
proof fn lemma_pascal_3_avoids_newer()
    ensures
        !matches_any("GTX 1070"@, generation_patterns(GpuGeneration::Blackwell)),
        !matches_any("GTX 1070"@, generation_patterns(GpuGeneration::AdaLovelace)),
        !matches_any("GTX 1070"@, generation_patterns(GpuGeneration::Ampere)),
        !matches_any("GTX 1070"@, generation_patterns(GpuGeneration::Turing)),
{
    reveal_strlit("GTX 1070");
    reveal_strlit("RTX 50");
    reveal_strlit("RTX 5060");
    reveal_strlit("RTX 5070");
    reveal_strlit("RTX 5080");
    reveal_strlit("RTX 5090");
    reveal_strlit("RTX 40");
    reveal_strlit("RTX 4060");
    reveal_strlit("RTX 4070");
    reveal_strlit("RTX 4080");
    reveal_strlit("RTX 4090");
    reveal_strlit("RTX ADA");
    reveal_strlit("L40");
    reveal_strlit("L4");
    reveal_strlit("RTX 30");
    reveal_strlit("RTX 3060");
    reveal_strlit("RTX 3070");
    reveal_strlit("RTX 3080");
    reveal_strlit("RTX 3090");
    reveal_strlit("RTX A");
    reveal_strlit("A40");
    reveal_strlit("A100");
    reveal_strlit("GTX 16");
    reveal_strlit("GTX 1650");
    reveal_strlit("GTX 1660");
    reveal_strlit("RTX 20");
    reveal_strlit("RTX 2060");
    reveal_strlit("RTX 2070");
    reveal_strlit("RTX 2080");
    reveal_strlit("TITAN RTX");
    assert("GTX 1070"@ =~= seq!['G', 'T', 'X', ' ', '1', '0', '7', '0']);
    lemma_absent_char("GTX 1070"@, "RTX 50"@, 0);
    lemma_absent_char("GTX 1070"@, "RTX 5060"@, 0);
    lemma_absent_char("GTX 1070"@, "RTX 5070"@, 0);
    lemma_absent_char("GTX 1070"@, "RTX 5080"@, 0);
    lemma_absent_char("GTX 1070"@, "RTX 5090"@, 0);
    lemma_none_of("GTX 1070"@, generation_patterns(GpuGeneration::Blackwell));
    lemma_absent_char("GTX 1070"@, "RTX 40"@, 0);
    lemma_absent_char("GTX 1070"@, "RTX 4060"@, 0);
    lemma_absent_char("GTX 1070"@, "RTX 4070"@, 0);
    lemma_absent_char("GTX 1070"@, "RTX 4080"@, 0);
    lemma_absent_char("GTX 1070"@, "RTX 4090"@, 0);
    lemma_absent_char("GTX 1070"@, "RTX ADA"@, 0);
    lemma_absent_char("GTX 1070"@, "L40"@, 0);
    lemma_absent_char("GTX 1070"@, "L4"@, 0);
    lemma_none_of("GTX 1070"@, generation_patterns(GpuGeneration::AdaLovelace));
    lemma_absent_char("GTX 1070"@, "RTX 30"@, 0);
    lemma_absent_char("GTX 1070"@, "RTX 3060"@, 0);
    lemma_absent_char("GTX 1070"@, "RTX 3070"@, 0);
    lemma_absent_char("GTX 1070"@, "RTX 3080"@, 0);
    lemma_absent_char("GTX 1070"@, "RTX 3090"@, 0);
    lemma_absent_char("GTX 1070"@, "RTX A"@, 0);
    lemma_absent_char("GTX 1070"@, "A40"@, 0);
    lemma_absent_char("GTX 1070"@, "A100"@, 0);
    lemma_none_of("GTX 1070"@, generation_patterns(GpuGeneration::Ampere));
    lemma_absent_char("GTX 1070"@, "GTX 16"@, 5);
    lemma_absent_char("GTX 1070"@, "GTX 1650"@, 5);
    lemma_absent_char("GTX 1070"@, "GTX 1660"@, 5);
    lemma_absent_char("GTX 1070"@, "RTX 20"@, 0);
    lemma_absent_char("GTX 1070"@, "RTX 2060"@, 0);
    lemma_absent_char("GTX 1070"@, "RTX 2070"@, 0);
    lemma_absent_char("GTX 1070"@, "RTX 2080"@, 0);
    lemma_absent_char("GTX 1070"@, "TITAN RTX"@, 1);
    lemma_none_of("GTX 1070"@, generation_patterns(GpuGeneration::Turing));
}

/// "GTX 1080" contains no pattern of a newer generation.
proof fn lemma_pascal_4_avoids_newer()
    ensures
        !matches_any("GTX 1080"@, generation_patterns(GpuGeneration::Blackwell)),
        !matches_any("GTX 1080"@, generation_patterns(GpuGeneration::AdaLovelace)),
        !matches_any("GTX 1080"@, generation_patterns(GpuGeneration::Ampere)),
        !matches_any("GTX 1080"@, generation_patterns(GpuGeneration::Turing)),
{
    reveal_strlit("GTX 1080");
    reveal_strlit("RTX 50");
    reveal_strlit("RTX 5060");
    reveal_strlit("RTX 5070");
    reveal_strlit("RTX 5080");
    reveal_strlit("RTX 5090");
    reveal_strlit("RTX 40");
    reveal_strlit("RTX 4060");
    reveal_strlit("RTX 4070");
    reveal_strlit("RTX 4080");
    reveal_strlit("RTX 4090");
    reveal_strlit("RTX ADA");
    reveal_strlit("L40");
    reveal_strlit("L4");
    reveal_strlit("RTX 30");
    reveal_strlit("RTX 3060");
    reveal_strlit("RTX 3070");
    reveal_strlit("RTX 3080");
    reveal_strlit("RTX 3090");
    reveal_strlit("RTX A");
    reveal_strlit("A40");
    reveal_strlit("A100");
    reveal_strlit("GTX 16");
    reveal_strlit("GTX 1650");
    reveal_strlit("GTX 1660");
    reveal_strlit("RTX 20");
    reveal_strlit("RTX 2060");
    reveal_strlit("RTX 2070");
    reveal_strlit("RTX 2080");
    reveal_strlit("TITAN RTX");
    assert("GTX 1080"@ =~= seq!['G', 'T', 'X', ' ', '1', '0', '8', '0']);
    lemma_absent_char("GTX 1080"@, "RTX 50"@, 0);
    lemma_absent_char("GTX 1080"@, "RTX 5060"@, 0);
    lemma_absent_char("GTX 1080"@, "RTX 5070"@, 0);
    lemma_absent_char("GTX 1080"@, "RTX 5080"@, 0);
    lemma_absent_char("GTX 1080"@, "RTX 5090"@, 0);
    lemma_none_of("GTX 1080"@, generation_patterns(GpuGeneration::Blackwell));
    lemma_absent_char("GTX 1080"@, "RTX 40"@, 0);
    lemma_absent_char("GTX 1080"@, "RTX 4060"@, 0);
    lemma_absent_char("GTX 1080"@, "RTX 4070"@, 0);
    lemma_absent_char("GTX 1080"@, "RTX 4080"@, 0);
    lemma_absent_char("GTX 1080"@, "RTX 4090"@, 0);
    lemma_absent_char("GTX 1080"@, "RTX ADA"@, 0);
    lemma_absent_char("GTX 1080"@, "L40"@, 0);
    lemma_absent_char("GTX 1080"@, "L4"@, 0);
    lemma_none_of("GTX 1080"@, generation_patterns(GpuGeneration::AdaLovelace));
    lemma_absent_char("GTX 1080"@, "RTX 30"@, 0);
    lemma_absent_char("GTX 1080"@, "RTX 3060"@, 0);
    lemma_absent_char("GTX 1080"@, "RTX 3070"@, 0);
    lemma_absent_char("GTX 1080"@, "RTX 3080"@, 0);
    lemma_absent_char("GTX 1080"@, "RTX 3090"@, 0);
    lemma_absent_char("GTX 1080"@, "RTX A"@, 0);
    lemma_absent_char("GTX 1080"@, "A40"@, 0);
    lemma_absent_char("GTX 1080"@, "A100"@, 0);
    lemma_none_of("GTX 1080"@, generation_patterns(GpuGeneration::Ampere));
    lemma_absent_char("GTX 1080"@, "GTX 16"@, 5);
    lemma_absent_char("GTX 1080"@, "GTX 1650"@, 5);
    lemma_absent_char("GTX 1080"@, "GTX 1660"@, 5);
    lemma_absent_char("GTX 1080"@, "RTX 20"@, 0);
    lemma_absent_char("GTX 1080"@, "RTX 2060"@, 0);
    lemma_absent_char("GTX 1080"@, "RTX 2070"@, 0);
    lemma_absent_char("GTX 1080"@, "RTX 2080"@, 0);
    lemma_absent_char("GTX 1080"@, "TITAN RTX"@, 1);
    lemma_none_of("GTX 1080"@, generation_patterns(GpuGeneration::Turing));
}

/// "TITAN X" contains no pattern of a newer generation.
proof fn lemma_pascal_5_avoids_newer()
    ensures
        !matches_any("TITAN X"@, generation_patterns(GpuGeneration::Blackwell)),
        !matches_any("TITAN X"@, generation_patterns(GpuGeneration::AdaLovelace)),
        !matches_any("TITAN X"@, generation_patterns(GpuGeneration::Ampere)),
        !matches_any("TITAN X"@, generation_patterns(GpuGeneration::Turing)),
{
    reveal_strlit("TITAN X");
    reveal_strlit("RTX 50");
    reveal_strlit("RTX 5060");
    reveal_strlit("RTX 5070");
    reveal_strlit("RTX 5080");
    reveal_strlit("RTX 5090");
    reveal_strlit("RTX 40");
    reveal_strlit("RTX 4060");
    reveal_strlit("RTX 4070");
    reveal_strlit("RTX 4080");
    reveal_strlit("RTX 4090");
    reveal_strlit("RTX ADA");
    reveal_strlit("L40");
    reveal_strlit("L4");
    reveal_strlit("RTX 30");
    reveal_strlit("RTX 3060");
    reveal_strlit("RTX 3070");
    reveal_strlit("RTX 3080");
    reveal_strlit("RTX 3090");
    reveal_strlit("RTX A");
    reveal_strlit("A40");
    reveal_strlit("A100");
    reveal_strlit("GTX 16");
    reveal_strlit("GTX 1650");
    reveal_strlit("GTX 1660");
    reveal_strlit("RTX 20");
    reveal_strlit("RTX 2060");
    reveal_strlit("RTX 2070");
    reveal_strlit("RTX 2080");
    reveal_strlit("TITAN RTX");
    assert("TITAN X"@ =~= seq!['T', 'I', 'T', 'A', 'N', ' ', 'X']);
    lemma_absent_char("TITAN X"@, "RTX 50"@, 0);
    lemma_absent_char("TITAN X"@, "RTX 5060"@, 0);
    lemma_absent_char("TITAN X"@, "RTX 5070"@, 0);
    lemma_absent_char("TITAN X"@, "RTX 5080"@, 0);
    lemma_absent_char("TITAN X"@, "RTX 5090"@, 0);
    lemma_none_of("TITAN X"@, generation_patterns(GpuGeneration::Blackwell));
    lemma_absent_char("TITAN X"@, "RTX 40"@, 0);
    lemma_absent_char("TITAN X"@, "RTX 4060"@, 0);
    lemma_absent_char("TITAN X"@, "RTX 4070"@, 0);
    lemma_absent_char("TITAN X"@, "RTX 4080"@, 0);
    lemma_absent_char("TITAN X"@, "RTX 4090"@, 0);
    lemma_absent_char("TITAN X"@, "RTX ADA"@, 0);
    lemma_absent_char("TITAN X"@, "L40"@, 0);
    lemma_absent_char("TITAN X"@, "L4"@, 0);
    lemma_none_of("TITAN X"@, generation_patterns(GpuGeneration::AdaLovelace));
    lemma_absent_char("TITAN X"@, "RTX 30"@, 0);
    lemma_absent_char("TITAN X"@, "RTX 3060"@, 0);
    lemma_absent_char("TITAN X"@, "RTX 3070"@, 0);
    lemma_absent_char("TITAN X"@, "RTX 3080"@, 0);
    lemma_absent_char("TITAN X"@, "RTX 3090"@, 0);
    lemma_absent_char("TITAN X"@, "RTX A"@, 0);
    lemma_absent_char("TITAN X"@, "A40"@, 1);
    lemma_absent_char("TITAN X"@, "A100"@, 1);
    lemma_none_of("TITAN X"@, generation_patterns(GpuGeneration::Ampere));
    lemma_absent_char("TITAN X"@, "GTX 16"@, 0);
    lemma_absent_char("TITAN X"@, "GTX 1650"@, 0);
    lemma_absent_char("TITAN X"@, "GTX 1660"@, 0);
    lemma_absent_char("TITAN X"@, "RTX 20"@, 0);
    lemma_absent_char("TITAN X"@, "RTX 2060"@, 0);
    lemma_absent_char("TITAN X"@, "RTX 2070"@, 0);
    lemma_absent_char("TITAN X"@, "RTX 2080"@, 0);
    lemma_absent_char("TITAN X"@, "TITAN RTX"@, 6);
    lemma_none_of("TITAN X"@, generation_patterns(GpuGeneration::Turing));
}

/// "TITAN XP" contains no pattern of a newer generation.
proof fn lemma_pascal_6_avoids_newer()
    ensures
        !matches_any("TITAN XP"@, generation_patterns(GpuGeneration::Blackwell)),
        !matches_any("TITAN XP"@, generation_patterns(GpuGeneration::AdaLovelace)),
        !matches_any("TITAN XP"@, generation_patterns(GpuGeneration::Ampere)),
        !matches_any("TITAN XP"@, generation_patterns(GpuGeneration::Turing)),
{
    reveal_strlit("TITAN XP");
    reveal_strlit("RTX 50");
    reveal_strlit("RTX 5060");
    reveal_strlit("RTX 5070");
    reveal_strlit("RTX 5080");
    reveal_strlit("RTX 5090");
    reveal_strlit("RTX 40");
    reveal_strlit("RTX 4060");
    reveal_strlit("RTX 4070");
    reveal_strlit("RTX 4080");
    reveal_strlit("RTX 4090");
    reveal_strlit("RTX ADA");
    reveal_strlit("L40");
    reveal_strlit("L4");
    reveal_strlit("RTX 30");
    reveal_strlit("RTX 3060");
    reveal_strlit("RTX 3070");
    reveal_strlit("RTX 3080");
    reveal_strlit("RTX 3090");
    reveal_strlit("RTX A");
    reveal_strlit("A40");
    reveal_strlit("A100");
    reveal_strlit("GTX 16");
    reveal_strlit("GTX 1650");
    reveal_strlit("GTX 1660");
    reveal_strlit("RTX 20");
    reveal_strlit("RTX 2060");
    reveal_strlit("RTX 2070");
    reveal_strlit("RTX 2080");
    reveal_strlit("TITAN RTX");
    assert("TITAN XP"@ =~= seq!['T', 'I', 'T', 'A', 'N', ' ', 'X', 'P']);
    lemma_absent_char("TITAN XP"@, "RTX 50"@, 0);
    lemma_absent_char("TITAN XP"@, "RTX 5060"@, 0);
    lemma_absent_char("TITAN XP"@, "RTX 5070"@, 0);
    lemma_absent_char("TITAN XP"@, "RTX 5080"@, 0);
    lemma_absent_char("TITAN XP"@, "RTX 5090"@, 0);
    lemma_none_of("TITAN XP"@, generation_patterns(GpuGeneration::Blackwell));
    lemma_absent_char("TITAN XP"@, "RTX 40"@, 0);
    lemma_absent_char("TITAN XP"@, "RTX 4060"@, 0);
    lemma_absent_char("TITAN XP"@, "RTX 4070"@, 0);
    lemma_absent_char("TITAN XP"@, "RTX 4080"@, 0);
    lemma_absent_char("TITAN XP"@, "RTX 4090"@, 0);
    lemma_absent_char("TITAN XP"@, "RTX ADA"@, 0);
    lemma_absent_char("TITAN XP"@, "L40"@, 0);
    lemma_absent_char("TITAN XP"@, "L4"@, 0);
    lemma_none_of("TITAN XP"@, generation_patterns(GpuGeneration::AdaLovelace));
    lemma_absent_char("TITAN XP"@, "RTX 30"@, 0);
    lemma_absent_char("TITAN XP"@, "RTX 3060"@, 0);
    lemma_absent_char("TITAN XP"@, "RTX 3070"@, 0);
    lemma_absent_char("TITAN XP"@, "RTX 3080"@, 0);
    lemma_absent_char("TITAN XP"@, "RTX 3090"@, 0);
    lemma_absent_char("TITAN XP"@, "RTX A"@, 0);
    lemma_absent_char("TITAN XP"@, "A40"@, 1);
    lemma_absent_char("TITAN XP"@, "A100"@, 1);
    lemma_none_of("TITAN XP"@, generation_patterns(GpuGeneration::Ampere));
    lemma_absent_char("TITAN XP"@, "GTX 16"@, 0);
    lemma_absent_char("TITAN XP"@, "GTX 1650"@, 0);
    lemma_absent_char("TITAN XP"@, "GTX 1660"@, 0);
    lemma_absent_char("TITAN XP"@, "RTX 20"@, 0);
    lemma_absent_char("TITAN XP"@, "RTX 2060"@, 0);
    lemma_absent_char("TITAN XP"@, "RTX 2070"@, 0);
    lemma_absent_char("TITAN XP"@, "RTX 2080"@, 0);
    lemma_absent_char("TITAN XP"@, "TITAN RTX"@, 6);
    lemma_none_of("TITAN XP"@, generation_patterns(GpuGeneration::Turing));
}

/// The patterns of Pascal are classified as Pascal.
proof fn lemma_patterns_of_pascal()
    ensures
        forall|i: int|
            0 <= i < generation_patterns(GpuGeneration::Pascal).len() ==> generation_of_upper(
                #[trigger] generation_patterns(GpuGeneration::Pascal)[i],
            ) == GpuGeneration::Pascal,
{
    lemma_pascal_0_avoids_newer();
    lemma_pascal_1_avoids_newer();
    lemma_pascal_2_avoids_newer();
    lemma_pascal_3_avoids_newer();
    lemma_pascal_4_avoids_newer();
    lemma_pascal_5_avoids_newer();
    lemma_pascal_6_avoids_newer();
    assert forall|i: int|
        0 <= i < generation_patterns(GpuGeneration::Pascal).len() implies generation_of_upper(
            #[trigger] generation_patterns(GpuGeneration::Pascal)[i],
        ) == GpuGeneration::Pascal by {
        lemma_self_infix(generation_patterns(GpuGeneration::Pascal)[i]);
    }
}

/// The upper-cased name "NVIDIA GEFORCE RTX 4090" marks an Nvidia card of the
/// AdaLovelace generation.
pub proof fn lemma_rtx_4090_name()
    ensures
        generation_of_upper("NVIDIA GEFORCE RTX 4090"@) == GpuGeneration::AdaLovelace,
        names_nvidia("NVIDIA GEFORCE RTX 4090"@),
{
    let h = "NVIDIA GEFORCE RTX 4090"@;
    reveal_strlit("NVIDIA GEFORCE RTX 4090");
    reveal_strlit("RTX 50");
    reveal_strlit("RTX 5060");
    reveal_strlit("RTX 5070");
    reveal_strlit("RTX 5080");
    reveal_strlit("RTX 5090");
    reveal_strlit("RTX 4090");
    reveal_strlit("NVIDIA");
    assert(h =~= seq!['N', 'V', 'I', 'D', 'I', 'A', ' ', 'G', 'E', 'F', 'O', 'R', 'C', 'E', ' ', 'R', 'T', 'X', ' ', '4', '0', '9', '0']);
    lemma_absent_char(h, "RTX 50"@, 4);
    lemma_absent_char(h, "RTX 5060"@, 4);
    lemma_absent_char(h, "RTX 5070"@, 4);
    lemma_absent_char(h, "RTX 5080"@, 4);
    lemma_absent_char(h, "RTX 5090"@, 4);
    lemma_none_of(h, generation_patterns(GpuGeneration::Blackwell));
    assert(h.subrange(15, 23) =~= "RTX 4090"@);
    assert(occurs_at(h, "RTX 4090"@, 15));
    assert(generation_patterns(GpuGeneration::AdaLovelace)[4] == "RTX 4090"@);
    assert(matches_any(h, generation_patterns(GpuGeneration::AdaLovelace)));
    assert(h.subrange(0, 6) =~= "NVIDIA"@);
    assert(occurs_at(h, "NVIDIA"@, 0));
}

/// Every name pattern of the generation table, as an upper-cased device name, is
/// classified as the generation the table lists it under.
pub proof fn lemma_generation_table()
    ensures
        forall|g: GpuGeneration, i: int|
            0 <= i < generation_patterns(g).len() ==> generation_of_upper(
                #[trigger] generation_patterns(g)[i],
            ) == g,
{
    lemma_patterns_of_blackwell();
    lemma_patterns_of_ada_lovelace();
    lemma_patterns_of_ampere();
    lemma_patterns_of_turing();
    lemma_patterns_of_pascal();
}

} // verus!
