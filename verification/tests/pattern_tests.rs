use gitfetch_rs::patterns::{shape_to_grid, text_to_grid};

#[test]
fn test_text_to_grid_simple() {
    let result = text_to_grid("A");
    assert!(result.is_ok());

    let grid = result.unwrap();
    assert_eq!(grid.len(), 7); // 7 rows
    assert!(!grid[0].is_empty()); // Has content
}

#[test]
fn test_text_to_grid_multiple_chars() {
    let result = text_to_grid("AB");
    assert!(result.is_ok());

    let grid = result.unwrap();
    assert_eq!(grid.len(), 7); // 7 rows
    // Should be wider than single character
    assert!(grid[0].len() > 7);
}

#[test]
fn test_text_to_grid_invalid_char() {
    let result = text_to_grid("A1");
    assert!(result.is_err());

    let err = result.unwrap_err();
    assert!(err.contains("Text mode only supports A-Z and space"));
}

#[test]
fn test_text_to_grid_lowercase() {
    let result = text_to_grid("abc");
    assert!(result.is_ok());

    let grid = result.unwrap();
    assert_eq!(grid.len(), 7);
}

#[test]
fn test_text_to_grid_with_space() {
    let result = text_to_grid("A B");
    assert!(result.is_ok());

    let grid = result.unwrap();
    assert_eq!(grid.len(), 7);
}

#[test]
fn test_shape_to_grid_heart() {
    let result = shape_to_grid(&vec!["heart".to_string()]);
    assert!(result.is_ok());

    let grid = result.unwrap();
    assert_eq!(grid.len(), 7); // 7 rows
    assert!(!grid[0].is_empty());
}

#[test]
fn test_shape_to_grid_octocat() {
    let result = shape_to_grid(&vec!["octocat".to_string()]);
    assert!(result.is_ok());

    let grid = result.unwrap();
    assert_eq!(grid.len(), 7);
}

#[test]
fn test_shape_to_grid_unknown() {
    let result = shape_to_grid(&vec!["unknown_shape".to_string()]);
    assert!(result.is_err());

    let err = result.unwrap_err();
    assert!(err.contains("Unknown shape"));
}

#[test]
fn test_shape_to_grid_multiple() {
    let result = shape_to_grid(&vec!["heart".to_string(), "octocat".to_string()]);
    assert!(result.is_ok());

    let grid = result.unwrap();
    assert_eq!(grid.len(), 7);
    // Should be wider than single shape
    assert!(grid[0].len() > 7);
}

#[test]
fn test_text_to_grid_empty() {
    let result = text_to_grid("");
    assert!(result.is_ok());

    let grid = result.unwrap();
    assert!(grid.is_empty());
}

#[test]
fn test_shape_to_grid_empty() {
    let result = shape_to_grid(&vec![]);
    assert!(result.is_ok());

    let grid = result.unwrap();
    assert!(grid.is_empty());
}

#[test]
fn text_to_grid_names_first_offender() {
    let err = text_to_grid("AB?C").unwrap_err();
    assert!(err.ends_with("Got: '?'"));
}

#[test]
fn shape_error_names_the_shape() {
    let err = shape_to_grid(&vec!["heart".to_string(), "kitty".to_string()]).unwrap_err();
    assert_eq!(err, "Unknown shape: kitty");
}

#[test]
fn text_grid_width_counts_glyphs_and_spacers() {
    // each letter glyph is seven columns wide plus one spacer column
    let grid = text_to_grid("AB").unwrap();
    assert_eq!(grid[0].len(), 16);
}

#[test]
fn text_grid_holds_exact_glyph_cells() {
    // the letter glyph followed by its spacer column, row by row
    let grid = text_to_grid("A").unwrap();
    assert_eq!(grid[0], vec![0, 3, 3, 3, 3, 3, 0, 0]);
    assert_eq!(grid[1], vec![3, 0, 0, 0, 0, 0, 3, 0]);
    assert_eq!(grid[3], vec![3, 3, 3, 3, 3, 3, 3, 0]);
}

#[test]
fn text_grid_is_case_insensitive() {
    assert_eq!(text_to_grid("ab c").unwrap(), text_to_grid("AB C").unwrap());
}

#[test]
fn shape_grid_concatenates_with_single_spacers() {
    // heart is seven columns wide, octocat nine, one spacer between them
    let grid = shape_to_grid(&vec!["heart".to_string(), "octocat".to_string()]).unwrap();
    assert_eq!(grid.len(), 7);
    for row in &grid {
        assert_eq!(row.len(), 7 + 1 + 9);
    }
    // the heart's top row, the spacer, then the octocat's top row
    assert_eq!(
        grid[0],
        vec![0, 4, 4, 0, 4, 4, 0, 0, 0, 0, 0, 4, 0, 0, 0, 4, 0],
    );
    // every cell is an intensity
    for row in &grid {
        for &cell in row {
            assert!(cell <= 4);
        }
    }
}
