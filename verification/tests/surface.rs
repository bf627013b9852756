//! The draw-scope protocol: the end step runs exactly once per scope, on the
//! error path as well, and commands land translated by the scope's offset.

use comptextdemo::composition::{
    draw_into_surface, DrawCommand, DrawingSurface, Point, Rect,
};

#[test]
fn end_draw_runs_once_even_on_error() {
    let mut surface = DrawingSurface::new(400, 300);
    let result = draw_into_surface(&mut surface, |mut scope| {
        scope.draw_at(1, 10, 20);
        (scope, Err(7))
    });
    assert_eq!(result, Err(7));
    assert!(!surface.drawing);
    assert_eq!(surface.completed_scopes, 1);

    // The failed scope did not leak: an independent next scope works.
    let result: Result<(), i32> = draw_into_surface(&mut surface, |scope| (scope, Ok(())));
    assert_eq!(result, Ok(()));
    assert_eq!(surface.completed_scopes, 2);
}

#[test]
fn offset_applied_to_logical_origin() {
    let mut surface = DrawingSurface::new(200, 100);
    // The platform relocated the writable region: a non-zero offset.
    surface.next_offset = Point { x: 5, y: 7 };
    let result: Result<(), i32> = draw_into_surface(&mut surface, |mut scope| {
        assert_eq!(scope.offset(), Point { x: 5, y: 7 });
        scope.draw_at(42, 0, 0);
        (scope, Ok(()))
    });
    assert_eq!(result, Ok(()));
    assert_eq!(surface.committed, vec![DrawCommand { item: 42, x: 5, y: 7 }]);
}

#[test]
fn zero_offset_keeps_logical_coordinates() {
    let mut surface = DrawingSurface::new(200, 100);
    let result: Result<(), i32> = draw_into_surface(&mut surface, |mut scope| {
        scope.draw_at(3, 11, 13);
        (scope, Ok(()))
    });
    assert_eq!(result, Ok(()));
    assert_eq!(surface.committed, vec![DrawCommand { item: 3, x: 11, y: 13 }]);
}

#[test]
fn commands_commit_in_order_at_end_draw() {
    let mut surface = DrawingSurface::new(64, 64);
    surface.next_offset = Point { x: 1, y: 2 };
    let update = Rect { left: 0, top: 0, right: 32, bottom: 32 };
    let mut scope = surface.begin_draw(Some(update));
    assert_eq!(scope.region, Some(update));
    scope.draw_at(1, 0, 0);
    scope.draw_at(2, 10, 10);

    // Nothing is visible until the scope ends.
    assert_eq!(surface.committed, vec![]);
    surface.end_draw(scope);
    assert_eq!(
        surface.committed,
        vec![
            DrawCommand { item: 1, x: 1, y: 2 },
            DrawCommand { item: 2, x: 11, y: 12 },
        ]
    );
    assert_eq!(surface.completed_scopes, 1);
}

#[test]
fn resize_keeps_content_and_scope_count() {
    let mut surface = DrawingSurface::new(10, 10);
    let result: Result<(), i32> = draw_into_surface(&mut surface, |mut scope| {
        scope.draw_at(9, 1, 1);
        (scope, Ok(()))
    });
    assert_eq!(result, Ok(()));
    surface.resize(800, 600);
    assert_eq!(surface.width, 800);
    assert_eq!(surface.height, 600);
    assert_eq!(surface.completed_scopes, 1);
    assert_eq!(surface.committed, vec![DrawCommand { item: 9, x: 1, y: 1 }]);
}
