use traymat::fetch::endpoint;

#[test]
fn endpoint_asks_for_eight_images() {
    assert_eq!(
        endpoint(8),
        "https://cn.bing.com/HPImageArchive.aspx?format=js&idx=0&n=8&mkt=zh-CN"
    );
}

#[test]
fn endpoint_writes_count_in_decimal() {
    assert_eq!(
        endpoint(0),
        "https://cn.bing.com/HPImageArchive.aspx?format=js&idx=0&n=0&mkt=zh-CN"
    );
    assert_eq!(
        endpoint(10),
        "https://cn.bing.com/HPImageArchive.aspx?format=js&idx=0&n=10&mkt=zh-CN"
    );
    assert_eq!(
        endpoint(255),
        "https://cn.bing.com/HPImageArchive.aspx?format=js&idx=0&n=255&mkt=zh-CN"
    );
}
