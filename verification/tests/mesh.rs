use rbridger::mesh::{face_edges, Edge, Part, LANDMARKS};

#[test]
fn fewer_landmarks_have_no_lines() {
    assert!(face_edges(0).is_empty());
    assert!(face_edges(105).is_empty());
}

#[test]
fn lines_of_a_face() {
    let edges = face_edges(106);
    assert_eq!(edges.len(), 32 + 9 + 8 + 1 + 9 + 8 + 1 + 11 + 1 + 7 + 1 + 14);
    assert_eq!(edges[0], Edge { from: 17, to: 25, part: Part::Contour });
    assert_eq!(edges[31], Edge { from: 9, to: 1, part: Part::Contour });
    assert_eq!(edges[32], Edge { from: 33, to: 34, part: Part::RightEye });
    assert!(edges.contains(&Edge { from: 51, to: 43, part: Part::RightEye }));
    assert!(edges.contains(&Edge { from: 105, to: 97, part: Part::LeftEye }));
    assert!(edges.contains(&Edge { from: 63, to: 52, part: Part::Mouth }));
    assert_eq!(edges[edges.len() - 1], Edge { from: 85, to: 86, part: Part::Contour });
}

#[test]
fn lines_join_landmarks() {
    for edge in face_edges(200) {
        assert!(edge.from < LANDMARKS && edge.to < LANDMARKS && edge.from != edge.to);
    }
}
