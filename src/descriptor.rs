//! The deployment descriptor that starts the inference server and its
//! tracing collector.

use vstd::prelude::*;

use crate::text::{decimal, decimal_string, lemma_decimal_injective};

verus! {

/// Up to the published port.
pub const COMPOSE_HEAD: &'static str = "\nversion: \"3.8\"\n\nservices:\n  cria:\n    image: twitchax/cria-gpu:2023.09.20\n    ports:\n      - ";

/// Between the published port and the artifact's path.
pub const COMPOSE_VOLUME: &'static str = "\n    volumes:\n      - ";

/// From the mount target to the server's port setting.
pub const COMPOSE_ENV: &'static str = ":/app/model.bin\n    environment:\n      - CRIA_SERVICE_NAME=cria\n      - CRIA_HOST=0.0.0.0\n      - CRIA_PORT=";

/// The rest of the server's environment common to both profiles.
pub const COMPOSE_ENV_TAIL: &'static str = "\n      - CRIA_ZIPKIN_ENDPOINT=http://zipkin-server:9411/api/v2/spans\n      - CRIA_CONTEXT_SIZE=65536\n";

/// The accelerator settings of the GPU profile.
pub const COMPOSE_GPU: &'static str = "      - CRIA_USE_GPU=true\n      - CRIA_GPU_LAYERS=32\n    deploy:\n      resources:\n        reservations:\n          devices:\n            - driver: nvidia\n              count: 1\n              capabilities: [ gpu ]\n";

/// The tracing collector.
pub const COMPOSE_TAIL: &'static str = "  zipkin-server:\n    image: openzipkin/zipkin\n    ports:\n      - \"9411:9411\"\n";

/// The descriptor for a profile, a port and the artifact's mount source.
pub open spec fn descriptor(gpu: bool, port: u16, model: Seq<char>) -> Seq<char> {
    let p = decimal(port as nat);
    COMPOSE_HEAD@ + p + ":"@ + p + COMPOSE_VOLUME@ + model + COMPOSE_ENV@ + p + COMPOSE_ENV_TAIL@ + (if gpu {
        COMPOSE_GPU@
    } else {
        Seq::empty()
    }) + COMPOSE_TAIL@
}

/// Renders the descriptor.
pub fn render_descriptor(gpu: bool, port: u16, model: &str) -> (r: String)
    ensures
        r@ == descriptor(gpu, port, model@),
{
    let p = decimal_string(port as u64);
    let mut out = String::from_str(COMPOSE_HEAD);
    out.append(p.as_str());
    out.append(":");
    out.append(p.as_str());
    out.append(COMPOSE_VOLUME);
    out.append(model);
    out.append(COMPOSE_ENV);
    out.append(p.as_str());
    out.append(COMPOSE_ENV_TAIL);
    if gpu {
        out.append(COMPOSE_GPU);
    }
    out.append(COMPOSE_TAIL);
    assert(out@ =~= descriptor(gpu, port, model@));
    out
}

/// Whether `t` occurs in `s`.
pub open spec fn contains(s: Seq<char>, t: Seq<char>) -> bool {
    exists|i: int| 0 <= i && i + t.len() <= s.len() && #[trigger] s.subrange(i, i + t.len()) == t
}

proof fn lemma_contains_middle(a: Seq<char>, t: Seq<char>, b: Seq<char>)
    ensures
        contains(a + t + b, t),
{
    let s = a + t + b;
    assert(s.subrange(a.len() as int, (a.len() + t.len()) as int) =~= t);
}

/// The descriptor publishes the port as `port:port`, mounts the artifact at
/// the server's model path, and holds the accelerator settings exactly in
/// the GPU profile's form.
pub proof fn lemma_descriptor_contents(gpu: bool, port: u16, model: Seq<char>)
    ensures
        contains(descriptor(gpu, port, model), decimal(port as nat) + ":"@ + decimal(port as nat)),
        contains(descriptor(gpu, port, model), model + COMPOSE_ENV@),
        gpu ==> contains(descriptor(gpu, port, model), COMPOSE_GPU@),
        !gpu ==> descriptor(gpu, port, model) == descriptor(true, port, model).subrange(
            0,
            descriptor(true, port, model).len() - COMPOSE_GPU@.len() - COMPOSE_TAIL@.len(),
        ) + COMPOSE_TAIL@,
{
    let p = decimal(port as nat);
    let d = descriptor(gpu, port, model);
    let a = COMPOSE_HEAD@;
    let b = COMPOSE_VOLUME@ + model + COMPOSE_ENV@ + p + COMPOSE_ENV_TAIL@ + (if gpu {
        COMPOSE_GPU@
    } else {
        Seq::empty()
    }) + COMPOSE_TAIL@;
    assert(d =~= a + (p + ":"@ + p) + b);
    lemma_contains_middle(a, p + ":"@ + p, b);
    let a2 = COMPOSE_HEAD@ + p + ":"@ + p + COMPOSE_VOLUME@;
    let b2 = p + COMPOSE_ENV_TAIL@ + (if gpu {
        COMPOSE_GPU@
    } else {
        Seq::empty()
    }) + COMPOSE_TAIL@;
    assert(d =~= a2 + (model + COMPOSE_ENV@) + b2);
    lemma_contains_middle(a2, model + COMPOSE_ENV@, b2);
    let a3 = COMPOSE_HEAD@ + p + ":"@ + p + COMPOSE_VOLUME@ + model + COMPOSE_ENV@ + p + COMPOSE_ENV_TAIL@;
    if gpu {
        assert(d =~= a3 + COMPOSE_GPU@ + COMPOSE_TAIL@);
        lemma_contains_middle(a3, COMPOSE_GPU@, COMPOSE_TAIL@);
    } else {
        let g = descriptor(true, port, model);
        assert(g =~= a3 + COMPOSE_GPU@ + COMPOSE_TAIL@);
        assert(g.subrange(0, g.len() - COMPOSE_GPU@.len() - COMPOSE_TAIL@.len()) =~= a3);
        assert(d =~= a3 + COMPOSE_TAIL@);
    }
}

proof fn lemma_prefix_before_colon(h: Seq<char>, d1: Seq<char>, r1: Seq<char>, d2: Seq<char>, r2: Seq<char>)
    requires
        h + d1 + ":"@ + r1 == h + d2 + ":"@ + r2,
        forall|i: int| 0 <= i < d1.len() ==> #[trigger] d1[i] != ':',
        forall|i: int| 0 <= i < d2.len() ==> #[trigger] d2[i] != ':',
    ensures
        d1 == d2,
{
    reveal_strlit(":");
    let x = h + d1 + ":"@ + r1;
    let y = h + d2 + ":"@ + r2;
    if d1.len() < d2.len() {
        assert(x[(h.len() + d1.len()) as int] == ':');
        assert(y[(h.len() + d1.len()) as int] == d2[d1.len() as int]);
    }
    if d2.len() < d1.len() {
        assert(y[(h.len() + d2.len()) as int] == ':');
        assert(x[(h.len() + d2.len()) as int] == d1[d2.len() as int]);
    }
    assert(d1 =~= x.subrange(h.len() as int, (h.len() + d1.len()) as int));
    assert(d2 =~= y.subrange(h.len() as int, (h.len() + d2.len()) as int));
}

proof fn lemma_profiles_differ(pf: Seq<char>, pt: Seq<char>)
    ensures
        pf + COMPOSE_ENV_TAIL@ + COMPOSE_TAIL@ != pt + COMPOSE_ENV_TAIL@ + COMPOSE_GPU@ + COMPOSE_TAIL@,
{
    let t = COMPOSE_TAIL@;
    let e = COMPOSE_ENV_TAIL@;
    let g = COMPOSE_GPU@;
    reveal_strlit("\n      - CRIA_ZIPKIN_ENDPOINT=http://zipkin-server:9411/api/v2/spans\n      - CRIA_CONTEXT_SIZE=65536\n");
    reveal_strlit("      - CRIA_USE_GPU=true\n      - CRIA_GPU_LAYERS=32\n    deploy:\n      resources:\n        reservations:\n          devices:\n            - driver: nvidia\n              count: 1\n              capabilities: [ gpu ]\n");
    let x = pf + e + t;
    let y = pt + e + g + t;
    if x == y {
        assert(x[(x.len() - t.len() - 2) as int] == e[(e.len() - 2) as int]);
        assert(y[(y.len() - t.len() - 2) as int] == g[(g.len() - 2) as int]);
    }
}

proof fn lemma_middle(a: Seq<char>, m1: Seq<char>, m2: Seq<char>, b: Seq<char>)
    requires
        a + m1 + b == a + m2 + b,
    ensures
        m1 == m2,
{
    let x = a + m1 + b;
    assert(m1 =~= x.subrange(a.len() as int, (x.len() - b.len()) as int));
    assert(m2 =~= (a + m2 + b).subrange(a.len() as int, (x.len() - b.len()) as int));
}

/// Rendering tells its inputs apart: two equal descriptors come from the
/// same profile, port and mount source.
#[verifier::rlimit(80)]
pub proof fn lemma_descriptor_injective(g1: bool, p1: u16, m1: Seq<char>, g2: bool, p2: u16, m2: Seq<char>)
    requires
        descriptor(g1, p1, m1) == descriptor(g2, p2, m2),
    ensures
        g1 == g2,
        p1 == p2,
        m1 == m2,
{
    let d1 = decimal(p1 as nat);
    let d2 = decimal(p2 as nat);
    let x = descriptor(g1, p1, m1);
    let h = COMPOSE_HEAD@;
    let e = COMPOSE_ENV_TAIL@;
    let g = COMPOSE_GPU@;
    let t = COMPOSE_TAIL@;
    lemma_decimal_injective(p1 as nat, p2 as nat);
    lemma_decimal_injective(p2 as nat, p1 as nat);
    let o1: Seq<char> = if g1 {
        g
    } else {
        Seq::empty()
    };
    let o2: Seq<char> = if g2 {
        g
    } else {
        Seq::empty()
    };
    let r1 = d1 + COMPOSE_VOLUME@ + m1 + COMPOSE_ENV@ + d1 + e + o1 + t;
    let r2 = d2 + COMPOSE_VOLUME@ + m2 + COMPOSE_ENV@ + d2 + e + o2 + t;
    assert(x =~= h + d1 + ":"@ + r1);
    assert(descriptor(g2, p2, m2) =~= h + d2 + ":"@ + r2);
    lemma_prefix_before_colon(h, d1, r1, d2, r2);
    let pre1 = h + d1 + ":"@ + d1 + COMPOSE_VOLUME@ + m1 + COMPOSE_ENV@ + d1;
    let pre2 = h + d2 + ":"@ + d2 + COMPOSE_VOLUME@ + m2 + COMPOSE_ENV@ + d2;
    if g1 && !g2 {
        assert(x =~= pre1 + e + g + t);
        assert(x =~= pre2 + e + t);
        lemma_profiles_differ(pre2, pre1);
    }
    if !g1 && g2 {
        assert(x =~= pre1 + e + t);
        assert(x =~= pre2 + e + g + t);
        lemma_profiles_differ(pre1, pre2);
    }
    let a = h + d1 + ":"@ + d1 + COMPOSE_VOLUME@;
    let b = COMPOSE_ENV@ + d1 + e + o1 + t;
    assert(x =~= a + m1 + b);
    assert(x =~= a + m2 + b);
    lemma_middle(a, m1, m2, b);
}

} // verus!
