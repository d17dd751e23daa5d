//! The lines that join the 106 landmarks of a face.
use vstd::prelude::*;

verus! {

/// How many landmarks a face has.
pub const LANDMARKS: usize = 106;

/// What a line belongs to.
#[derive(Clone, Copy, Debug, PartialEq, Eq, Structural)]
pub enum Part {
    Contour,
    RightEye,
    LeftEye,
    Mouth,
}

/// A line between two landmarks.
#[derive(Clone, Copy, Debug, PartialEq, Eq, Structural)]
pub struct Edge {
    pub from: usize,
    pub to: usize,
    pub part: Part,
}

/// The landmarks of the outline, from one temple round the chin to the other.
pub open spec fn oval() -> Seq<usize> {
    seq![
        17usize, 25, 26, 27, 28, 29, 30, 31, 32, 18, 19, 20, 21, 22, 23, 24, 0, 8, 7, 6, 5, 4, 3, 2,
        16, 15, 14, 13, 12, 11, 10, 9, 1,
    ]
}

/// Lines from each landmark to the next, from `first` up to `last`.
pub open spec fn chain(first: usize, last: usize, part: Part) -> Seq<Edge> {
    Seq::new(
        (last - first) as nat,
        |i: int| Edge { from: (first + i) as usize, to: (first + i + 1) as usize, part },
    )
}

/// The line that closes a chain.
pub open spec fn closing(first: usize, last: usize, part: Part) -> Seq<Edge> {
    seq![Edge { from: last, to: first, part }]
}

/// The lines of the outline.
pub open spec fn outline() -> Seq<Edge> {
    Seq::new(
        (oval().len() - 1) as nat,
        |i: int| Edge { from: oval()[i], to: oval()[i + 1], part: Part::Contour },
    )
}

/// All lines, in the order in which they are drawn: the outline, both eyes with their brows, the
/// lips, the nose.
pub open spec fn face_mesh() -> Seq<Edge> {
    outline() + chain(33, 42, Part::RightEye) + chain(43, 51, Part::RightEye) + closing(
        43,
        51,
        Part::RightEye,
    ) + chain(87, 96, Part::LeftEye) + chain(97, 105, Part::LeftEye) + closing(
        97,
        105,
        Part::LeftEye,
    ) + chain(52, 63, Part::Mouth) + closing(52, 63, Part::Mouth) + chain(64, 71, Part::Mouth)
        + closing(64, 71, Part::Mouth) + chain(72, 86, Part::Contour)
}

fn push_chain(edges: &mut Vec<Edge>, first: usize, last: usize, part: Part)
    requires
        first <= last,
        last < usize::MAX,
    ensures
        final(edges)@ == old(edges)@ + chain(first, last, part),
{
    let mut k: usize = first;
    assert(edges@ =~= old(edges)@ + chain(first, first, part));
    while k < last
        invariant
            first <= k <= last,
            last < usize::MAX,
            edges@ == old(edges)@ + chain(first, k, part),
        decreases last - k,
    {
        edges.push(Edge { from: k, to: k + 1, part });
        k = k + 1;
        assert(edges@ =~= old(edges)@ + chain(first, k, part));
    }
}

fn push_loop(edges: &mut Vec<Edge>, first: usize, last: usize, part: Part)
    requires
        first <= last,
        last < usize::MAX,
    ensures
        final(edges)@ == old(edges)@ + chain(first, last, part) + closing(first, last, part),
{
    push_chain(edges, first, last, part);
    let ghost before = edges@;
    edges.push(Edge { from: last, to: first, part });
    assert(edges@ =~= before + closing(first, last, part));
}

/// The lines to draw between `count` landmarks; none where that is less than a face.
pub fn face_edges(count: usize) -> (edges: Vec<Edge>)
    ensures
        edges@ == if count < LANDMARKS {
            Seq::<Edge>::empty()
        } else {
            face_mesh()
        },
{
    let mut edges: Vec<Edge> = Vec::new();
    if count < LANDMARKS {
        return edges;
    }
    let points: Vec<usize> = vec![
        17, 25, 26, 27, 28, 29, 30, 31, 32, 18, 19, 20, 21, 22, 23, 24, 0, 8, 7, 6, 5, 4, 3, 2, 16,
        15, 14, 13, 12, 11, 10, 9, 1,
    ];
    assert(points@ =~= oval());
    let mut i: usize = 0;
    while i + 1 < points.len()
        invariant
            points@ == oval(),
            i < points@.len(),
            edges@ == outline().take(i as int),
        decreases points@.len() - i,
    {
        edges.push(Edge { from: points[i], to: points[i + 1], part: Part::Contour });
        i = i + 1;
        assert(edges@ =~= outline().take(i as int));
    }
    assert(edges@ =~= outline());
    push_chain(&mut edges, 33, 42, Part::RightEye);
    push_loop(&mut edges, 43, 51, Part::RightEye);
    push_chain(&mut edges, 87, 96, Part::LeftEye);
    push_loop(&mut edges, 97, 105, Part::LeftEye);
    push_loop(&mut edges, 52, 63, Part::Mouth);
    push_loop(&mut edges, 64, 71, Part::Mouth);
    push_chain(&mut edges, 72, 86, Part::Contour);
    edges
}

/// Every line joins two landmarks of the face.
pub proof fn law_edges_join_landmarks(i: int)
    requires
        0 <= i < face_mesh().len(),
    ensures
        face_mesh()[i].from < LANDMARKS,
        face_mesh()[i].to < LANDMARKS,
        face_mesh()[i].from != face_mesh()[i].to,
{
}

/// The outline runs down one cheek, along the chin, and up the other: landmark by landmark in the
/// order in which they lie, each of the first thirty-three once.
pub proof fn law_outline_runs_round_the_face(i: int)
    ensures
        oval().len() == 33,
        oval()[0] == 17,
        0 <= i < 8 ==> oval()[1 + i] == 25 + i,
        0 <= i < 7 ==> oval()[9 + i] == 18 + i,
        oval()[16] == 0,
        0 <= i < 7 ==> oval()[17 + i] == 8 - i,
        0 <= i < 8 ==> oval()[24 + i] == 16 - i,
        oval()[32] == 1,
        outline().len() == 32,
        0 <= i < 32 ==> outline()[i].from == oval()[i] && outline()[i].to == oval()[i + 1]
            && outline()[i].part == Part::Contour,
{
}

/// The lines after the outline go from each landmark to the next within the brows, the eyes, the
/// lips and the nose; eyes and lips are closed. Each line has the part that it belongs to.
pub proof fn law_lines_follow_the_features(k: int)
    ensures
        ({
            let mesh = face_mesh();
            &&& mesh.len() == 102
            &&& 0 <= k < 32 ==> mesh[k] == outline()[k]
            &&& 0 <= k < 9 ==> mesh[32 + k] == (Edge {
                from: (33 + k) as usize,
                to: (34 + k) as usize,
                part: Part::RightEye,
            })
            &&& 0 <= k < 8 ==> mesh[41 + k] == (Edge {
                from: (43 + k) as usize,
                to: (44 + k) as usize,
                part: Part::RightEye,
            })
            &&& mesh[49] == (Edge { from: 51, to: 43, part: Part::RightEye })
            &&& 0 <= k < 9 ==> mesh[50 + k] == (Edge {
                from: (87 + k) as usize,
                to: (88 + k) as usize,
                part: Part::LeftEye,
            })
            &&& 0 <= k < 8 ==> mesh[59 + k] == (Edge {
                from: (97 + k) as usize,
                to: (98 + k) as usize,
                part: Part::LeftEye,
            })
            &&& mesh[67] == (Edge { from: 105, to: 97, part: Part::LeftEye })
            &&& 0 <= k < 11 ==> mesh[68 + k] == (Edge {
                from: (52 + k) as usize,
                to: (53 + k) as usize,
                part: Part::Mouth,
            })
            &&& mesh[79] == (Edge { from: 63, to: 52, part: Part::Mouth })
            &&& 0 <= k < 7 ==> mesh[80 + k] == (Edge {
                from: (64 + k) as usize,
                to: (65 + k) as usize,
                part: Part::Mouth,
            })
            &&& mesh[87] == (Edge { from: 71, to: 64, part: Part::Mouth })
            &&& 0 <= k < 14 ==> mesh[88 + k] == (Edge {
                from: (72 + k) as usize,
                to: (73 + k) as usize,
                part: Part::Contour,
            })
        }),
{
}

} // verus!
