use plotter_bird::game::{standard_settings, PipePair};
use plotter_bird::render::draw_board;
use plotter_bird::transport::{
    chunk_commands, execute_directive, initialize_directive, is_ack, ACK_BYTE, CHUNK_CEILING,
};

fn concat(cmds: &[Vec<u8>]) -> Vec<u8> {
    let mut out = Vec::new();
    for c in cmds {
        out.extend_from_slice(c);
    }
    out
}

#[test]
fn chunks_concatenate_to_the_input() {
    let s = standard_settings();
    let board = vec![
        PipePair { x: 1900, y1: 1000, y2: 3200 },
        PipePair { x: 4300, y1: 2000, y2: 4400 },
        PipePair { x: 6700, y1: 1500, y2: 3700 },
    ];
    let cmds = draw_board(&board, &s);
    let chunks = chunk_commands(&cmds);
    assert_eq!(concat(&chunks), concat(&cmds));
}

#[test]
fn chunks_stay_below_the_ceiling() {
    let s = standard_settings();
    let board = vec![
        PipePair { x: 1900, y1: 1000, y2: 3200 },
        PipePair { x: 4300, y1: 2000, y2: 4400 },
    ];
    let cmds = draw_board(&board, &s);
    for c in &cmds {
        assert!(c.len() < CHUNK_CEILING);
    }
    let chunks = chunk_commands(&cmds);
    for chunk in &chunks {
        assert!(chunk.len() < CHUNK_CEILING);
    }
}

#[test]
fn chunks_cut_at_exact_token_boundaries() {
    let token = vec![65u8; 20];
    let cmds = vec![token.clone(), token.clone(), token.clone(), token.clone()];
    let chunks = chunk_commands(&cmds);
    assert_eq!(chunks.len(), 2);
    assert_eq!(chunks[0].len(), 40);
    assert_eq!(chunks[1].len(), 40);
    assert_eq!(chunks[0], concat(&cmds[0..2]));
    assert_eq!(chunks[1], concat(&cmds[2..4]));
}

#[test]
fn chunking_no_input_yields_one_empty_chunk() {
    let cmds: Vec<Vec<u8>> = vec![];
    let chunks = chunk_commands(&cmds);
    assert_eq!(chunks.len(), 1);
    assert!(chunks[0].is_empty());
}

#[test]
fn oversized_token_still_arrives_whole() {
    let big = vec![66u8; 80];
    let cmds = vec![big.clone()];
    let chunks = chunk_commands(&cmds);
    assert_eq!(concat(&chunks), big);
}

#[test]
fn directives_have_the_wire_format() {
    assert_eq!(execute_directive(), b"OA;".to_vec());
    assert_eq!(initialize_directive(), b"IN;".to_vec());
}

#[test]
fn acknowledgment_is_carriage_return() {
    assert_eq!(ACK_BYTE, 13);
    assert!(is_ack(13));
    assert!(!is_ack(10));
    assert!(!is_ack(0));
}
