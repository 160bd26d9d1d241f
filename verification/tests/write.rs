use libcmd::{writer_or_never, NeverWriter, WriterOrNever};

#[test]
fn the_stand_in_takes_everything() {
    assert_eq!(NeverWriter.poll_write(b""), Ok(0));
    assert_eq!(NeverWriter.poll_write(b"lost words"), Ok(10));
    assert_eq!(NeverWriter.poll_flush(), Ok(()));
    assert_eq!(NeverWriter.poll_shutdown(), Ok(()));
}

#[test]
fn a_writer_is_used_where_there_is_one() {
    assert!(matches!(writer_or_never(Some(5)), WriterOrNever::Writer(5)));
    assert!(matches!(writer_or_never::<i32>(None), WriterOrNever::Never(_)));
}
