use ledmatrix::ledmatrix::{
    COMMIT_COL, DRAW_CMD, FwVersion, PortId, SET_COL, SLEEP_CMD, commit_col_frame,
    decode_fw_version, detect, draw_bool_frame, draw_matrix_frames, frame_command,
    set_col_frame, set_full_brightness_frame, sleep_frame, wake_frame,
};
use ledmatrix::matrix::{encode, transpose};

/// A deterministic test pattern for a 34x9 boolean grid.
fn pattern_grid() -> [[bool; 9]; 34] {
    let mut g = [[false; 9]; 34];
    for i in 0..34 {
        for j in 0..9 {
            g[i][j] = (i * 7 + j * 3) % 5 == 0;
        }
    }
    g
}

/// Read bit `k` (LSB first within each byte) of a packed byte buffer.
fn bit_at(bytes: &[u8], k: usize) -> bool {
    (bytes[k / 8] >> (k % 8)) & 1 == 1
}

#[test]
fn encode_round_trip() {
    let g = pattern_grid();
    let packed = encode(g);
    assert_eq!(packed.len(), 39);
    for row in 0..34 {
        for col in 0..9 {
            assert_eq!(bit_at(&packed, row * 9 + col), g[row][col]);
        }
    }
    for k in 306..312 {
        assert!(!bit_at(&packed, k));
    }
}

#[test]
fn encode_known_bytes() {
    let mut g = [[false; 9]; 34];
    g[0][0] = true;
    g[0][3] = true;
    let packed = encode(g);
    assert_eq!(packed[0], 0b0000_1001);
    for k in 1..39 {
        assert_eq!(packed[k], 0);
    }

    let mut g2 = [[false; 9]; 34];
    g2[0][8] = true; // bit 8: first bit of the second byte
    g2[1][0] = true; // bit 9
    let packed2 = encode(g2);
    assert_eq!(packed2[0], 0);
    assert_eq!(packed2[1], 0b0000_0011);
}

#[test]
fn encode_last_cell_and_padding() {
    let mut g = [[false; 9]; 34];
    g[33][8] = true; // bit 305: bit 1 of byte 38
    let packed = encode(g);
    assert_eq!(packed[38], 0b0000_0010);
    assert!(packed[38] < 4, "the six trailing pad bits must stay zero");
}

#[test]
fn transpose_swaps_rows_and_columns() {
    let mut m = [[0u8; 9]; 34];
    for i in 0..34 {
        for j in 0..9 {
            m[i][j] = (i * 9 + j) as u8;
        }
    }
    let t = transpose(m);
    for i in 0..34 {
        for j in 0..9 {
            assert_eq!(t[j][i], m[i][j]);
        }
    }
}

#[test]
fn transpose_is_involutive_on_a_grid() {
    let mut m = [[0u8; 9]; 34];
    for i in 0..34 {
        for j in 0..9 {
            m[i][j] = ((i * 31 + j * 17) % 251) as u8;
        }
    }
    let t = transpose(m);
    // transpose the 9x34 result back by hand and compare
    let mut back = [[0u8; 9]; 34];
    for j in 0..9 {
        for i in 0..34 {
            back[i][j] = t[j][i];
        }
    }
    assert_eq!(back, m);
}

#[test]
fn frame_command_layout() {
    let f = frame_command(0x00, &[7]);
    assert_eq!(f, vec![0x32, 0xAC, 0x00, 7]);
    let empty = frame_command(0x05, &[]);
    assert_eq!(empty, vec![0x32, 0xAC, 0x05]);
}

#[test]
fn sleep_and_wake_frames() {
    assert_eq!(wake_frame(), vec![0x32, 0xAC, SLEEP_CMD, 0]);
    assert_eq!(sleep_frame(), vec![0x32, 0xAC, SLEEP_CMD, 1]);
}

#[test]
fn brightness_frame() {
    assert_eq!(set_full_brightness_frame(200), vec![0x32, 0xAC, 0x00, 200]);
}

#[test]
fn set_col_frame_layout() {
    let mut col = [0u8; 34];
    col[0] = 11;
    col[33] = 22;
    let f = set_col_frame(3, &col);
    assert_eq!(f.len(), 38);
    assert_eq!(&f[0..3], &[0x32, 0xAC, SET_COL]);
    assert_eq!(f[3], 3);
    assert_eq!(f[4], 11);
    assert_eq!(f[37], 22);
}

#[test]
fn commit_col_frame_layout() {
    assert_eq!(commit_col_frame(), vec![0x32, 0xAC, COMMIT_COL]);
}

#[test]
fn draw_bool_frame_wraps_encoding() {
    let g = pattern_grid();
    let f = draw_bool_frame(g);
    assert_eq!(f.len(), 42);
    assert_eq!(&f[0..3], &[0x32, 0xAC, DRAW_CMD]);
    assert_eq!(&f[3..42], &encode(g)[..]);
}

#[test]
fn draw_matrix_frames_sends_columns_then_commit() {
    let mut m = [[0u8; 9]; 34];
    for i in 0..34 {
        for j in 0..9 {
            m[i][j] = (i + j * 2) as u8;
        }
    }
    let frames = draw_matrix_frames(m);
    assert_eq!(frames.len(), 10);
    for c in 0..9 {
        let f = &frames[c];
        assert_eq!(f.len(), 38);
        assert_eq!(&f[0..3], &[0x32, 0xAC, SET_COL]);
        assert_eq!(f[3], c as u8);
        for i in 0..34 {
            assert_eq!(f[4 + i], m[i][c], "column {} row {}", c, i);
        }
    }
    assert_eq!(frames[9], vec![0x32, 0xAC, COMMIT_COL]);
}

#[test]
fn fw_version_decodes_fields() {
    let reply = [1u8, 2, 0, 9, 9, 9];
    let v = decode_fw_version(&reply).unwrap();
    assert_eq!(
        v,
        FwVersion { major: 1, minor: 0, patch: 2, pre_release: false }
    );
}

#[test]
fn fw_version_nibbles_and_pre_release() {
    let v = decode_fw_version(&[3, 0x2A, 1]).unwrap();
    assert_eq!(v.major, 3);
    assert_eq!(v.minor, 2);
    assert_eq!(v.patch, 10);
    assert!(v.pre_release);
}

#[test]
fn fw_version_short_reply_is_none() {
    assert!(decode_fw_version(&[]).is_none());
    assert!(decode_fw_version(&[1]).is_none());
    assert!(decode_fw_version(&[1, 2]).is_none());
}

#[test]
fn detect_keeps_only_matching_ports() {
    let ports = vec![
        PortId { name: "ttyACM0".to_string(), vid: 12972, pid: 32 },
        PortId { name: "ttyUSB0".to_string(), vid: 1234, pid: 32 },
        PortId { name: "ttyACM1".to_string(), vid: 12972, pid: 32 },
        PortId { name: "ttyACM2".to_string(), vid: 12972, pid: 99 },
    ];
    let found = detect(ports);
    assert_eq!(found.len(), 2);
    assert_eq!(found[0].name, "ttyACM0");
    assert_eq!(found[1].name, "ttyACM1");
}

#[test]
fn detect_finds_nothing_in_empty_list() {
    let found = detect(Vec::new());
    assert_eq!(found.len(), 0);
}
